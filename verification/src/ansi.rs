//! The terminal control sequences the library emits, and the calls into
//! `termion` that produce them.

use vstd::prelude::*;

verus! {

/// The two foreground styles: text that was shown before, and the text that
/// is currently active.
#[derive(Clone, Copy, Debug, PartialEq, Eq, Structural)]
pub enum Style {
    Neutral,
    Highlighted,
}

/// The decimal digit for `d`, which is below ten.
pub open spec fn digit_char(d: nat) -> char {
    seq!['0', '1', '2', '3', '4', '5', '6', '7', '8', '9'][d as int]
}

/// `n` written in decimal, without sign or leading zeros.
pub open spec fn decimal(n: nat) -> Seq<char>
    decreases n,
{
    if n < 10 {
        seq![digit_char(n)]
    } else {
        decimal(n / 10).push(digit_char(n % 10))
    }
}

/// Clears the whole screen.
pub open spec fn clear_screen_code() -> Seq<char> {
    "\x1B[2J"@
}

/// Clears the row the cursor is on.
pub open spec fn clear_row_code() -> Seq<char> {
    "\x1B[2K"@
}

/// Moves the cursor to a one-based column and row.
pub open spec fn goto_code(col: u16, row: u16) -> Seq<char> {
    "\x1B["@ + decimal(row as nat) + seq![';'] + decimal(col as nat) + seq!['H']
}

/// Switches the foreground to the highlight colour.
pub open spec fn highlight_code() -> Seq<char> {
    "\x1B[38;5;14m"@
}

/// Switches the foreground back to the terminal's default colour.
pub open spec fn neutral_code() -> Seq<char> {
    "\x1B[39m"@
}

/// Switches to bold text.
pub open spec fn bold_code() -> Seq<char> {
    "\x1B[1m"@
}

/// Switches to italic text.
pub open spec fn italic_code() -> Seq<char> {
    "\x1B[3m"@
}

/// Switches bold, italic and every other text attribute off.
pub open spec fn plain_code() -> Seq<char> {
    "\x1B[m"@
}

/// Hides the cursor.
pub open spec fn hide_cursor_code() -> Seq<char> {
    "\x1B[?25l"@
}

/// The sequence that switches the foreground to `style`.
pub open spec fn style_code(style: Style) -> Seq<char> {
    match style {
        Style::Neutral => neutral_code(),
        Style::Highlighted => highlight_code(),
    }
}

/// `termion::clear::All`, formatted. Trusted: the result is the CSI
/// sequence `2J`.
#[verifier::external_body]
pub(crate) fn clear_screen_sequence() -> (s: String)
    ensures
        s@ == clear_screen_code(),
{
    format!("{}", termion::clear::All)
}

/// `termion::clear::CurrentLine`, formatted. Trusted: the result is the CSI
/// sequence `2K`.
#[verifier::external_body]
pub(crate) fn clear_row_sequence() -> (s: String)
    ensures
        s@ == clear_row_code(),
{
    format!("{}", termion::clear::CurrentLine)
}

/// `termion::cursor::Goto`, formatted. Trusted: the result is the CSI
/// sequence made of the row in decimal, a semicolon, the column in decimal
/// and `H`. Both coordinates are one-based, so zero is left out.
#[verifier::external_body]
pub(crate) fn goto_sequence(col: u16, row: u16) -> (s: String)
    requires
        col >= 1,
        row >= 1,
    ensures
        s@ == goto_code(col, row),
{
    format!("{}", termion::cursor::Goto(col, row))
}

/// `termion::color::LightCyan::fg_str`. Trusted: the result is the CSI
/// sequence that selects colour 14 of the 256-colour palette as foreground.
#[verifier::external_body]
pub(crate) fn highlight_sequence() -> (s: String)
    ensures
        s@ == highlight_code(),
{
    termion::color::LightCyan.fg_str().to_string()
}

/// `termion::color::Reset::fg_str`. Trusted: the result is the CSI sequence
/// `39m`, which restores the default foreground.
#[verifier::external_body]
pub(crate) fn neutral_sequence() -> (s: String)
    ensures
        s@ == neutral_code(),
{
    termion::color::Reset.fg_str().to_string()
}

/// `termion::style::Bold`, formatted. Trusted: the result is the CSI
/// sequence `1m`.
#[verifier::external_body]
pub(crate) fn bold_sequence() -> (s: String)
    ensures
        s@ == bold_code(),
{
    format!("{}", termion::style::Bold)
}

/// `termion::style::Italic`, formatted. Trusted: the result is the CSI
/// sequence `3m`.
#[verifier::external_body]
pub(crate) fn italic_sequence() -> (s: String)
    ensures
        s@ == italic_code(),
{
    format!("{}", termion::style::Italic)
}

/// `termion::style::Reset`, formatted. Trusted: the result is the CSI
/// sequence `m`.
#[verifier::external_body]
pub(crate) fn plain_sequence() -> (s: String)
    ensures
        s@ == plain_code(),
{
    format!("{}", termion::style::Reset)
}

/// `termion::cursor::Hide`, formatted. Trusted: the result is the CSI
/// sequence `?25l`.
#[verifier::external_body]
pub(crate) fn hide_cursor_sequence() -> (s: String)
    ensures
        s@ == hide_cursor_code(),
{
    format!("{}", termion::cursor::Hide)
}

/// The control sequence that switches the foreground to `style`.
pub fn style_sequence(style: Style) -> (s: String)
    ensures
        s@ == style_code(style),
{
    match style {
        Style::Neutral => neutral_sequence(),
        Style::Highlighted => highlight_sequence(),
    }
}

} // verus!
