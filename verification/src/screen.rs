//! The physical cursor: the terminal row and column, and the drawing
//! primitives that move it. Each primitive appends what it sends to the
//! terminal to `out`.

use crate::ansi::{
    clear_row_code, clear_row_sequence, clear_screen_code, clear_screen_sequence, goto_code,
    goto_sequence, neutral_code, neutral_sequence, style_code, style_sequence, Style,
};
use vstd::prelude::*;

verus! {

/// The row below `row`; the last row a `u16` can name has none below it.
pub open spec fn advanced(row: u16) -> u16 {
    if row < u16::MAX {
        (row + 1) as u16
    } else {
        row
    }
}

/// The row above `row`; the first row has none above it, and row zero does
/// not exist.
pub open spec fn retreated(row: u16) -> u16 {
    if row > 1 {
        (row - 1) as u16
    } else {
        1
    }
}

/// The column just behind a prefix of `prefix_len` characters that starts in
/// column one, as far as a `u16` can name it.
pub open spec fn segment_col(prefix_len: nat) -> u16 {
    if prefix_len < u16::MAX {
        (prefix_len + 1) as u16
    } else {
        u16::MAX
    }
}

/// What clearing the screen sends: the clear, then the cursor to the top
/// left corner.
pub open spec fn clear_all_output() -> Seq<char> {
    clear_screen_code() + goto_code(1, 1)
}

/// What clearing `row` sends: the cursor to its first column, then the
/// clear.
pub open spec fn reset_row_output(row: u16) -> Seq<char> {
    goto_code(1, row) + clear_row_code()
}

/// What rewriting `row` sends: the row is cleared, then `content` is written
/// from column one in `style`, and the foreground is set back to neutral.
pub open spec fn rewrite_row_output(row: u16, content: Seq<char>, style: Style) -> Seq<char> {
    reset_row_output(row) + style_code(style) + content + neutral_code()
}

/// What rewriting `row` in two parts sends: the row is cleared, `prefix` is
/// written from column one in `prefix_style`, then `segment` in
/// `segment_style` from the column behind the prefix, and the foreground is
/// set back to neutral.
pub open spec fn rewrite_row_partial_output(
    row: u16,
    prefix: Seq<char>,
    segment: Seq<char>,
    prefix_style: Style,
    segment_style: Style,
) -> Seq<char> {
    reset_row_output(row) + style_code(prefix_style) + prefix + style_code(segment_style)
        + goto_code(segment_col(prefix.len()), row) + segment + neutral_code()
}

/// The physical cursor, in one-based terminal coordinates. The row is the
/// row the cursor is on. The column is recorded only where a word is
/// revealed: it is the column at which the last revealed word starts, and
/// moving between rows or rewriting a whole row leaves it as it is.
#[derive(Clone, Copy, Debug, PartialEq, Eq, Structural)]
pub struct StdoutState {
    pub curr_row: u16,
    pub curr_col: u16,
}

impl StdoutState {
    /// Both coordinates are one-based.
    pub open spec fn wf(&self) -> bool {
        self.curr_row >= 1 && self.curr_col >= 1
    }

    /// The cursor in the top left corner.
    pub fn new() -> (state: StdoutState)
        ensures
            state.curr_row == 1,
            state.curr_col == 1,
    {
        StdoutState { curr_row: 1, curr_col: 1 }
    }

    /// Clears the whole screen and puts the cursor in the top left corner.
    pub fn clear_all(&mut self, out: &mut String)
        ensures
            final(self).curr_row == 1,
            final(self).curr_col == 1,
            final(out)@ == old(out)@ + clear_all_output(),
    {
        out.append(clear_screen_sequence().as_str());
        out.append(goto_sequence(1, 1).as_str());
        self.curr_row = 1;
        self.curr_col = 1;
    }

    /// Moves the cursor to the first column of the row below. On the last
    /// row that a `u16` can name the row stays. The recorded column is left
    /// as it is.
    pub fn move_to_next_line(&mut self, out: &mut String)
        ensures
            final(self).curr_row == advanced(old(self).curr_row),
            final(self).curr_col == old(self).curr_col,
            final(out)@ == old(out)@ + goto_code(1, advanced(old(self).curr_row)),
    {
        if self.curr_row < u16::MAX {
            self.curr_row += 1;
        }
        out.append(goto_sequence(1, self.curr_row).as_str());
    }

    /// Moves the cursor to the first column of the row above. On the first
    /// row the row stays: the cursor is never put on row zero. The recorded
    /// column is left as it is.
    pub fn move_to_prev_line(&mut self, out: &mut String)
        ensures
            final(self).curr_row == retreated(old(self).curr_row),
            final(self).curr_col == old(self).curr_col,
            final(out)@ == old(out)@ + goto_code(1, retreated(old(self).curr_row)),
    {
        if self.curr_row > 1 {
            self.curr_row -= 1;
        } else {
            self.curr_row = 1;
        }
        out.append(goto_sequence(1, self.curr_row).as_str());
    }

    /// Clears the current row and puts the cursor at its start. The
    /// recorded row and column are left as they are.
    pub fn reset_curr_line(&mut self, out: &mut String)
        requires
            old(self).wf(),
        ensures
            final(self).curr_row == old(self).curr_row,
            final(self).curr_col == old(self).curr_col,
            final(out)@ == old(out)@ + reset_row_output(old(self).curr_row),
    {
        out.append(goto_sequence(1, self.curr_row).as_str());
        out.append(clear_row_sequence().as_str());
    }

    /// Clears the current row and writes `content` from its first column in
    /// `style`. The recorded row and column are left as they are.
    pub fn rewrite_row(&mut self, out: &mut String, content: &str, style: Style)
        requires
            old(self).wf(),
        ensures
            final(self).curr_row == old(self).curr_row,
            final(self).curr_col == old(self).curr_col,
            final(out)@ == old(out)@ + rewrite_row_output(old(self).curr_row, content@, style),
    {
        self.reset_curr_line(out);
        out.append(style_sequence(style).as_str());
        out.append(content);
        out.append(neutral_sequence().as_str());
    }

    /// Clears the current row, writes `prefix` from its first column in
    /// `prefix_style` and `new_segment` behind it in `segment_style`. The
    /// column is left where the new segment starts.
    pub fn rewrite_row_partial(
        &mut self,
        out: &mut String,
        prefix: &str,
        new_segment: &str,
        prefix_style: Style,
        segment_style: Style,
    )
        requires
            old(self).wf(),
        ensures
            final(self).curr_row == old(self).curr_row,
            final(self).curr_col == segment_col(prefix@.len()),
            final(out)@ == old(out)@ + rewrite_row_partial_output(
                old(self).curr_row,
                prefix@,
                new_segment@,
                prefix_style,
                segment_style,
            ),
    {
        let prefix_len = prefix.unicode_len();
        let col: u16 = if prefix_len < 0xFFFF {
            (prefix_len + 1) as u16
        } else {
            u16::MAX
        };
        self.reset_curr_line(out);
        out.append(style_sequence(prefix_style).as_str());
        out.append(prefix);
        out.append(style_sequence(segment_style).as_str());
        out.append(goto_sequence(col, self.curr_row).as_str());
        out.append(new_segment);
        out.append(neutral_sequence().as_str());
        self.curr_col = col;
    }
}

} // verus!
