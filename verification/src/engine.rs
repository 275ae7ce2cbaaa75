//! The render engine: one text, its logical cursor and the physical cursor,
//! moved together by each navigation command.

use crate::ansi::{
    clear_row_code, clear_row_sequence, goto_code, goto_sequence, highlight_code,
    highlight_sequence, neutral_code, neutral_sequence, Style,
};
use crate::nav::{NavCommand, NavigationCursor, Position};
use crate::screen::{
    advanced, clear_all_output, retreated, rewrite_row_output, rewrite_row_partial_output,
    segment_col, StdoutState,
};
use crate::text::{join_words, Text};
use vstd::prelude::*;

verus! {

/// What revealing word `w` of `line` adds to its row: the word itself for
/// the first word, and a space and the word for every other.
pub open spec fn reveal_segment(line: Seq<Seq<char>>, w: int) -> Seq<char> {
    if w == 0 {
        line[0]
    } else {
        seq![' '] + line[w]
    }
}

/// What stands on a row after the first `n` words of `line` were revealed
/// one by one: the segments of those words, in order.
pub open spec fn revealed(line: Seq<Seq<char>>, n: nat) -> Seq<char>
    decreases n,
{
    if n == 0 {
        Seq::<char>::empty()
    } else {
        revealed(line, (n - 1) as nat) + reveal_segment(line, n - 1)
    }
}

/// Revealing a line word by word gives, after each word, the words so far
/// joined by single spaces, and after the last word the whole line joined by
/// single spaces.
pub proof fn lemma_reveal_round_trip(line: Seq<Seq<char>>, n: nat)
    requires
        n <= line.len(),
    ensures
        revealed(line, n) == join_words(line.subrange(0, n as int)),
        n == line.len() ==> revealed(line, n) == join_words(line),
    decreases n,
{
    if n > 0 {
        lemma_reveal_round_trip(line, (n - 1) as nat);
        assert(line.subrange(0, n as int).drop_last() =~= line.subrange(0, n - 1));
    }
}

/// What showing `content` highlighted sends: the highlight, the content,
/// and the foreground set back to neutral.
pub open spec fn show_output(content: Seq<char>) -> Seq<char> {
    highlight_code() + content + neutral_code()
}

/// What showing a line again on `row` sends: the clear of the row the
/// cursor is on, the cursor to the start of `row`, and the content.
pub open spec fn redisplay_output(row: u16, content: Seq<char>) -> Seq<char> {
    clear_row_code() + goto_code(1, row) + content
}

impl Text {
    /// What showing the line at `line_index` sends: the line highlighted,
    /// and nothing where there is no such line.
    pub open spec fn curr_line_shown(&self, line_index: nat) -> Seq<char> {
        if line_index < self.line_count() {
            show_output(join_words(self@[line_index as int]))
        } else {
            Seq::<char>::empty()
        }
    }

    /// What showing the line at `line_index` again on `row` sends, and
    /// nothing where there is no such line.
    pub open spec fn curr_line_redisplayed(&self, row: u16, line_index: nat) -> Seq<char> {
        if line_index < self.line_count() {
            redisplay_output(row, join_words(self@[line_index as int]))
        } else {
            Seq::<char>::empty()
        }
    }

    /// Writes `l` highlighted at the cursor.
    pub fn show_line(&self, out: &mut String, l: &String)
        ensures
            final(out)@ == old(out)@ + show_output(l@),
    {
        out.append(highlight_sequence().as_str());
        out.append(l.as_str());
        out.append(neutral_sequence().as_str());
    }

    /// Writes the current line, joined by single spaces, highlighted at the
    /// cursor. Behind the last line there is no current line, and nothing is
    /// written.
    pub fn show_curr_line(&self, out: &mut String, cursor: &NavigationCursor)
        ensures
            final(out)@ == old(out)@ + self.curr_line_shown(cursor@.line_index),
            cursor@.line_index >= self.line_count() ==> final(out)@ == old(out)@,
    {
        match self.get_line(&cursor.line_index) {
            Some(line) => self.show_line(out, &line),
            None => {},
        }
    }

    /// Clears the row the cursor is on and writes the current line, joined
    /// by single spaces and in the colour that is set, from the start of the
    /// row of `stdout_state`. Behind the last line there is no current line,
    /// and nothing is written.
    pub fn redisplay_current_line(
        &self,
        out: &mut String,
        stdout_state: &StdoutState,
        cursor: &NavigationCursor,
    )
        requires
            stdout_state.wf(),
        ensures
            final(out)@ == old(out)@ + self.curr_line_redisplayed(
                stdout_state.curr_row,
                cursor@.line_index,
            ),
            cursor@.line_index >= self.line_count() ==> final(out)@ == old(out)@,
    {
        match self.get_line(&cursor.line_index) {
            Some(line) => {
                out.append(clear_row_sequence().as_str());
                out.append(goto_sequence(1, stdout_state.curr_row).as_str());
                out.append(line.as_str());
            },
            None => {},
        }
    }
}

/// The row on which line `line_index` of a text of `count` lines stands:
/// one row per line from the first row down. Behind the last line it is the
/// row of the last line.
pub open spec fn row_of(line_index: nat, count: nat) -> nat {
    if count == 0 {
        1
    } else if line_index < count {
        line_index + 1
    } else {
        count
    }
}

/// A text with the two cursors that move through it.
pub struct RenderEngine {
    pub text: Text,
    pub cursor: NavigationCursor,
    pub screen: StdoutState,
}

impl RenderEngine {
    /// The logical cursor lies within the text, the physical cursor has
    /// one-based coordinates, and the physical row is the row of the current
    /// line (where the text has no more lines than a `u16` can count).
    pub open spec fn wf(&self) -> bool {
        &&& self.cursor@.wf(self.text@)
        &&& self.screen.wf()
        &&& self.text@.len() <= u16::MAX ==> self.screen.curr_row == row_of(
            self.cursor@.line_index,
            self.text@.len(),
        )
    }

    /// What `NextLine` draws. Behind the last line: nothing. Else the
    /// current line is written in full on its row: highlighted where no word
    /// of it was shown, neutral where some were; where all were shown the
    /// row is left as it is. Then the cursor moves down, unless the line was
    /// the last.
    pub open spec fn drawn_next_line(&self) -> Seq<char> {
        let l = self.cursor@.line_index as int;
        let row = self.screen.curr_row;
        if self.cursor@.exhausted(self.text@) {
            Seq::<char>::empty()
        } else {
            let shown = if self.cursor@.word_index == 0 {
                rewrite_row_output(row, join_words(self.text@[l]), Style::Highlighted)
            } else if self.cursor@.mid_reveal(self.text@) {
                rewrite_row_output(row, join_words(self.text@[l]), Style::Neutral)
            } else {
                Seq::<char>::empty()
            };
            let moved = if l + 1 < self.text@.len() {
                goto_code(1, advanced(row))
            } else {
                Seq::<char>::empty()
            };
            shown + moved
        }
    }

    /// What `PrevLine` draws. On the first line: nothing. Else the cursor
    /// moves up, unless it stood behind the last line, and the line it comes
    /// to is written highlighted.
    pub open spec fn drawn_prev_line(&self) -> Seq<char> {
        let l = self.cursor@.line_index as int;
        let row = self.screen.curr_row;
        if l == 0 {
            Seq::<char>::empty()
        } else if l < self.text@.len() {
            goto_code(1, retreated(row)) + rewrite_row_output(
                retreated(row),
                join_words(self.text@[l - 1]),
                Style::Highlighted,
            )
        } else {
            rewrite_row_output(row, join_words(self.text@[l - 1]), Style::Highlighted)
        }
    }

    /// What `NextWord` draws. Behind the last line: nothing. Where the
    /// current line has a word left, its row is rewritten with the words
    /// shown so far in neutral and the new word highlighted. Where all its
    /// words are shown, the cursor moves down to the next line, if there is
    /// one, and that line's first word is written highlighted.
    pub open spec fn drawn_next_word(&self) -> Seq<char> {
        let l = self.cursor@.line_index as int;
        let w = self.cursor@.word_index as int;
        let row = self.screen.curr_row;
        if self.cursor@.exhausted(self.text@) {
            Seq::<char>::empty()
        } else if w < self.text@[l].len() {
            rewrite_row_partial_output(
                row,
                join_words(self.text@[l].subrange(0, w)),
                reveal_segment(self.text@[l], w),
                Style::Neutral,
                Style::Highlighted,
            )
        } else if l + 1 < self.text@.len() {
            let first = if self.text@[l + 1].len() > 0 {
                rewrite_row_partial_output(
                    advanced(row),
                    Seq::<char>::empty(),
                    reveal_segment(self.text@[l + 1], 0),
                    Style::Neutral,
                    Style::Highlighted,
                )
            } else {
                Seq::<char>::empty()
            };
            goto_code(1, advanced(row)) + first
        } else {
            Seq::<char>::empty()
        }
    }

    /// What `cmd` sends to the terminal.
    pub open spec fn drawn(&self, cmd: NavCommand) -> Seq<char> {
        match cmd {
            NavCommand::FromBeginning => clear_all_output(),
            NavCommand::NextLine => self.drawn_next_line(),
            NavCommand::PrevLine => self.drawn_prev_line(),
            NavCommand::NextWord => self.drawn_next_word(),
        }
    }

    /// The physical row after `cmd`.
    pub open spec fn row_after(&self, cmd: NavCommand) -> u16 {
        let l = self.cursor@.line_index;
        let w = self.cursor@.word_index;
        let count = self.text@.len();
        let row = self.screen.curr_row;
        match cmd {
            NavCommand::FromBeginning => 1,
            NavCommand::NextLine => if l + 1 < count {
                advanced(row)
            } else {
                row
            },
            NavCommand::PrevLine => if 0 < l < count {
                retreated(row)
            } else {
                row
            },
            NavCommand::NextWord => if l + 1 < count && w >= self.text@[l as int].len() {
                advanced(row)
            } else {
                row
            },
        }
    }

    /// The recorded column after `cmd`. `FromBeginning` sets it to one.
    /// `NextWord` sets it to the column at which the revealed word starts,
    /// and to one where it passes on to the next line. `NextLine` and
    /// `PrevLine` leave it as it is, and so does a command that draws
    /// nothing.
    pub open spec fn col_after(&self, cmd: NavCommand) -> u16 {
        let l = self.cursor@.line_index;
        let w = self.cursor@.word_index;
        let count = self.text@.len();
        let col = self.screen.curr_col;
        match cmd {
            NavCommand::FromBeginning => 1,
            NavCommand::NextLine => col,
            NavCommand::PrevLine => col,
            NavCommand::NextWord => if l >= count {
                col
            } else if w < self.text@[l as int].len() {
                segment_col(join_words(self.text@[l as int].subrange(0, w as int)).len())
            } else if l + 1 < count {
                1
            } else {
                col
            },
        }
    }

    /// An engine at the start of `text`, with the physical cursor in the top
    /// left corner.
    pub fn new(text: Text) -> (engine: RenderEngine)
        ensures
            engine.text == text,
            engine.cursor@ == Position::start(),
            engine.screen.curr_row == 1,
            engine.screen.curr_col == 1,
            engine.wf(),
    {
        RenderEngine { text, cursor: NavigationCursor::new(), screen: StdoutState::new() }
    }

    /// Whether the engine is well formed. An engine made by `new` and moved
    /// by `apply` alone always is.
    pub fn is_valid(&self) -> (valid: bool)
        ensures
            valid == self.wf(),
    {
        let l = self.cursor.line_index;
        let w = self.cursor.word_index;
        let count = self.text.lines.len();
        let row = self.screen.curr_row;
        let within = if l < count {
            w <= self.text.lines[l].words.len()
        } else {
            l == count && w == 0
        };
        let row_fits = if count > 0xFFFF {
            true
        } else if count == 0 {
            row == 1
        } else if l < count {
            row as usize == l + 1
        } else {
            row as usize == count
        };
        within && self.screen.curr_row >= 1 && self.screen.curr_col >= 1 && row_fits
    }

    fn next_line(&mut self, out: &mut String)
        requires
            old(self).wf(),
        ensures
            final(self).text == old(self).text,
            final(self).cursor@ == old(self).cursor@.after(old(self).text@, NavCommand::NextLine),
            final(self).screen.curr_row == old(self).row_after(NavCommand::NextLine),
            final(self).screen.curr_col == old(self).col_after(NavCommand::NextLine),
            final(out)@ == old(out)@ + old(self).drawn_next_line(),
    {
        let l = self.cursor.line_index;
        let w = self.cursor.word_index;
        let count = self.text.lines.len();
        if l < count {
            if w == 0 || w < self.text.lines[l].words.len() {
                let line = self.text.get_line(&l).unwrap();
                let style = if w == 0 {
                    Style::Highlighted
                } else {
                    Style::Neutral
                };
                self.screen.rewrite_row(out, line.as_str(), style);
            }
            if l + 1 < count {
                self.screen.move_to_next_line(out);
            }
        }
        self.cursor = self.cursor.transition(&self.text, NavCommand::NextLine);
    }

    fn prev_line(&mut self, out: &mut String)
        requires
            old(self).wf(),
        ensures
            final(self).text == old(self).text,
            final(self).cursor@ == old(self).cursor@.after(old(self).text@, NavCommand::PrevLine),
            final(self).screen.curr_row == old(self).row_after(NavCommand::PrevLine),
            final(self).screen.curr_col == old(self).col_after(NavCommand::PrevLine),
            final(out)@ == old(out)@ + old(self).drawn_prev_line(),
    {
        let l = self.cursor.line_index;
        let count = self.text.lines.len();
        if l > 0 {
            if l < count {
                self.screen.move_to_prev_line(out);
            }
            let prev = l - 1;
            let line = self.text.get_line(&prev).unwrap();
            self.screen.rewrite_row(out, line.as_str(), Style::Highlighted);
        }
        self.cursor = self.cursor.transition(&self.text, NavCommand::PrevLine);
    }

    fn next_word(&mut self, out: &mut String)
        requires
            old(self).wf(),
        ensures
            final(self).text == old(self).text,
            final(self).cursor@ == old(self).cursor@.after(old(self).text@, NavCommand::NextWord),
            final(self).screen.curr_row == old(self).row_after(NavCommand::NextWord),
            final(self).screen.curr_col == old(self).col_after(NavCommand::NextWord),
            final(out)@ == old(out)@ + old(self).drawn_next_word(),
    {
        let l = self.cursor.line_index;
        let w = self.cursor.word_index;
        let count = self.text.lines.len();
        if l < count {
            if w < self.text.lines[l].words.len() {
                let prefix = self.text.get_line_up_to_word(&l, &w).unwrap();
                let word = self.text.get_word(&l, &w).unwrap();
                let mut segment = String::new();
                if w > 0 {
                    segment.append(" ");
                }
                segment.append(word.as_str());
                proof {
                    reveal_strlit(" ");
                }
                self.screen.rewrite_row_partial(
                    out,
                    prefix.as_str(),
                    segment.as_str(),
                    Style::Neutral,
                    Style::Highlighted,
                );
            } else if l + 1 < count {
                self.screen.move_to_next_line(out);
                self.screen.curr_col = 1;
                let next = l + 1;
                if self.text.lines[next].words.len() > 0 {
                    let prefix = String::new();
                    let word = self.text.get_word(&next, &0).unwrap();
                    self.screen.rewrite_row_partial(
                        out,
                        prefix.as_str(),
                        word.as_str(),
                        Style::Neutral,
                        Style::Highlighted,
                    );
                }
            }
        }
        self.cursor = self.cursor.transition(&self.text, NavCommand::NextWord);
    }

    /// Applies one command: the logical cursor makes its transition, the
    /// physical cursor follows, and what has to be drawn is appended to
    /// `out`, for the caller to write and flush once.
    pub fn apply(&mut self, cmd: NavCommand, out: &mut String)
        requires
            old(self).wf(),
        ensures
            final(self).wf(),
            final(self).text == old(self).text,
            final(self).cursor@ == old(self).cursor@.after(old(self).text@, cmd),
            final(self).screen.curr_row == old(self).row_after(cmd),
            final(self).screen.curr_col == old(self).col_after(cmd),
            final(out)@ == old(out)@ + old(self).drawn(cmd),
            old(self).text@.len() <= u16::MAX ==> final(self).screen.curr_row == row_of(
                final(self).cursor@.line_index,
                old(self).text@.len(),
            ),
    {
        match cmd {
            NavCommand::FromBeginning => {
                self.cursor = self.cursor.transition(&self.text, cmd);
                self.screen.clear_all(out);
            },
            NavCommand::NextLine => self.next_line(out),
            NavCommand::PrevLine => self.prev_line(out),
            NavCommand::NextWord => self.next_word(out),
        }
    }
}

/// `NextLine` moves the physical cursor down by one row or leaves it on its
/// row, and `PrevLine` moves it up by one row or leaves it on its row. It
/// stays only at a boundary: `NextLine` on the last line or behind it,
/// `PrevLine` on the first line or behind the last. (A text of more lines
/// than a `u16` can count has more lines than rows; of such a text only the
/// first half is stated.)
pub proof fn lemma_row_moves_one_step(engine: &RenderEngine)
    requires
        engine.wf(),
    ensures
        engine.row_after(NavCommand::NextLine) == engine.screen.curr_row || engine.row_after(
            NavCommand::NextLine,
        ) == engine.screen.curr_row + 1,
        engine.row_after(NavCommand::PrevLine) == engine.screen.curr_row || engine.row_after(
            NavCommand::PrevLine,
        ) == engine.screen.curr_row - 1,
        engine.text@.len() <= u16::MAX ==> (engine.row_after(NavCommand::NextLine)
            == engine.screen.curr_row <==> engine.cursor@.line_index + 1 >= engine.text@.len()),
        engine.text@.len() <= u16::MAX ==> (engine.row_after(NavCommand::PrevLine)
            == engine.screen.curr_row <==> engine.cursor@.line_index == 0
            || engine.cursor@.line_index == engine.text@.len()),
{
}

/// Behind the last line `NextLine` and `NextWord` draw nothing and leave the
/// physical cursor where it is.
pub proof fn lemma_exhausted_draws_nothing(engine: &RenderEngine)
    requires
        engine.cursor@.line_index == engine.text@.len(),
    ensures
        engine.drawn(NavCommand::NextLine) == Seq::<char>::empty(),
        engine.drawn(NavCommand::NextWord) == Seq::<char>::empty(),
        engine.row_after(NavCommand::NextLine) == engine.screen.curr_row,
        engine.row_after(NavCommand::NextWord) == engine.screen.curr_row,
        engine.col_after(NavCommand::NextLine) == engine.screen.curr_col,
        engine.col_after(NavCommand::NextWord) == engine.screen.curr_col,
{
}

/// After any command, on a text of no more lines than a `u16` can count, the
/// physical row is the row of the line the logical cursor is on: one row
/// per line, and behind the last line the row of the last line.
pub proof fn lemma_row_follows_line(engine: &RenderEngine, cmd: NavCommand)
    requires
        engine.wf(),
        engine.text@.len() <= u16::MAX,
    ensures
        engine.row_after(cmd) == row_of(
            engine.cursor@.after(engine.text@, cmd).line_index,
            engine.text@.len(),
        ),
{
}

} // verus!
