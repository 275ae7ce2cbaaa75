//! A memorisation aid for short texts: a text is revealed line by line or
//! word by word, and the logical position in the text is kept in step with
//! the terminal's cursor row.
//!
//! The library computes; it never touches the terminal. Every drawing
//! primitive appends the control sequences and the content it would send to
//! a `String`, which the caller writes to the terminal and flushes.

pub mod ansi;
pub mod engine;
pub mod keys;
pub mod messages;
pub mod nav;
pub mod screen;
pub mod shell;
pub mod text;
