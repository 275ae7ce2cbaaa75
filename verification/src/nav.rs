//! The logical position in a text, and how each command moves it.

use crate::text::Text;
use vstd::prelude::*;

verus! {

/// A navigation command.
#[derive(Clone, Copy, Debug, PartialEq, Eq, Structural)]
pub enum NavCommand {
    FromBeginning,
    PrevLine,
    NextLine,
    NextWord,
}

/// The logical position: `line_index` is the line to be revealed next,
/// `word_index` the number of its words that are already shown, and
/// `last_command` the last command that moved the cursor since the start.
#[derive(Clone, Copy, Debug)]
pub struct NavigationCursor {
    pub line_index: usize,
    pub word_index: usize,
    pub last_command: Option<NavCommand>,
}

/// The position as plain numbers.
pub ghost struct Position {
    pub line_index: nat,
    pub word_index: nat,
    pub last_command: Option<NavCommand>,
}

impl View for NavigationCursor {
    type V = Position;

    open spec fn view(&self) -> Position {
        Position {
            line_index: self.line_index as nat,
            word_index: self.word_index as nat,
            last_command: self.last_command,
        }
    }
}

impl Position {
    /// The cursor lies within `text`: on one of its lines, with no more
    /// words shown than the line has, or just behind the last line with no
    /// word shown.
    pub open spec fn wf(&self, text: Seq<Seq<Seq<char>>>) -> bool {
        &&& self.line_index <= text.len()
        &&& self.line_index < text.len() ==> self.word_index <= text[self.line_index as int].len()
        &&& self.line_index == text.len() ==> self.word_index == 0
    }

    /// Every line was passed: there is no current line.
    pub open spec fn exhausted(&self, text: Seq<Seq<Seq<char>>>) -> bool {
        self.line_index >= text.len()
    }

    /// Some but not all words of the current line are shown.
    pub open spec fn mid_reveal(&self, text: Seq<Seq<Seq<char>>>) -> bool {
        &&& self.line_index < text.len()
        &&& 0 < self.word_index < text[self.line_index as int].len()
    }

    /// The start of a text: first line, no word shown, no command yet.
    pub open spec fn start() -> Position {
        Position { line_index: 0, word_index: 0, last_command: None }
    }

    /// The cursor after `cmd`.
    ///
    /// `FromBeginning` goes back to the start. `NextLine` passes the
    /// current line, `PrevLine` goes back one line; both leave no word
    /// shown. `NextWord` shows one more word of the current line, and where
    /// all of them are shown it passes on to the next line and shows that
    /// line's first word. A command that cannot move (`NextLine` and
    /// `NextWord` behind the last line, `PrevLine` on the first) changes
    /// nothing.
    pub open spec fn after(self, text: Seq<Seq<Seq<char>>>, cmd: NavCommand) -> Position {
        let l = self.line_index;
        let w = self.word_index;
        match cmd {
            NavCommand::FromBeginning => Self::start(),
            NavCommand::NextLine => if self.exhausted(text) {
                self
            } else {
                Position {
                    line_index: l + 1,
                    word_index: 0,
                    last_command: Some(cmd),
                }
            },
            NavCommand::PrevLine => if l == 0 {
                self
            } else {
                Position {
                    line_index: (l - 1) as nat,
                    word_index: 0,
                    last_command: Some(cmd),
                }
            },
            NavCommand::NextWord => if self.exhausted(text) {
                self
            } else if w < text[l as int].len() {
                Position {
                    line_index: l,
                    word_index: w + 1,
                    last_command: Some(cmd),
                }
            } else if l + 1 < text.len() && text[l as int + 1].len() > 0 {
                Position {
                    line_index: l + 1,
                    word_index: 1,
                    last_command: Some(cmd),
                }
            } else {
                Position {
                    line_index: l + 1,
                    word_index: 0,
                    last_command: Some(cmd),
                }
            },
        }
    }

    /// The cursor after each of `cmds` in turn.
    pub open spec fn after_all(
        self,
        text: Seq<Seq<Seq<char>>>,
        cmds: Seq<NavCommand>,
    ) -> Position
        decreases cmds.len(),
    {
        if cmds.len() == 0 {
            self
        } else {
            self.after_all(text, cmds.drop_last()).after(text, cmds.last())
        }
    }
}

impl NavigationCursor {
    /// The cursor at the start of a text.
    pub fn new() -> (cursor: NavigationCursor)
        ensures
            cursor@ == Position::start(),
    {
        NavigationCursor { line_index: 0, word_index: 0, last_command: None }
    }

    /// The cursor after `cmd` in `text`. It never fails: a command that
    /// cannot move hands back the cursor as it is.
    pub fn transition(&self, text: &Text, cmd: NavCommand) -> (next: NavigationCursor)
        ensures
            next@ == self@.after(text@, cmd),
            self@.wf(text@) ==> next@.wf(text@),
    {
        let l = self.line_index;
        let w = self.word_index;
        let count = text.lines.len();
        match cmd {
            NavCommand::FromBeginning => NavigationCursor::new(),
            NavCommand::NextLine => {
                if l >= count {
                    *self
                } else {
                    NavigationCursor { line_index: l + 1, word_index: 0, last_command: Some(cmd) }
                }
            },
            NavCommand::PrevLine => {
                if l == 0 {
                    *self
                } else {
                    NavigationCursor { line_index: l - 1, word_index: 0, last_command: Some(cmd) }
                }
            },
            NavCommand::NextWord => {
                if l >= count {
                    *self
                } else if w < text.lines[l].words.len() {
                    NavigationCursor { line_index: l, word_index: w + 1, last_command: Some(cmd) }
                } else if l + 1 < count && text.lines[l + 1].words.len() > 0 {
                    NavigationCursor { line_index: l + 1, word_index: 1, last_command: Some(cmd) }
                } else {
                    NavigationCursor { line_index: l + 1, word_index: 0, last_command: Some(cmd) }
                }
            },
        }
    }
}

/// A cursor that lies within the text still does after any command.
pub proof fn lemma_after_keeps_wf(
    cursor: Position,
    text: Seq<Seq<Seq<char>>>,
    cmd: NavCommand,
)
    requires
        cursor.wf(text),
    ensures
        cursor.after(text, cmd).wf(text),
{
}

/// From the start of a text, or from any cursor that lies within it, every
/// sequence of commands leaves the cursor within the text: the line index
/// is at most the number of lines, and the word index at most the number of
/// words of the current line.
pub proof fn lemma_after_all_keeps_wf(
    cursor: Position,
    text: Seq<Seq<Seq<char>>>,
    cmds: Seq<NavCommand>,
)
    requires
        cursor.wf(text),
    ensures
        Position::start().wf(text),
        cursor.after_all(text, cmds).wf(text),
    decreases cmds.len(),
{
    if cmds.len() > 0 {
        lemma_after_all_keeps_wf(cursor, text, cmds.drop_last());
        lemma_after_keeps_wf(cursor.after_all(text, cmds.drop_last()), text, cmds.last());
    }
}

/// Behind the last line, any number of `NextLine` and `NextWord` commands
/// leaves the cursor exactly as it is.
pub proof fn lemma_exhausted_stays(
    cursor: Position,
    text: Seq<Seq<Seq<char>>>,
    cmds: Seq<NavCommand>,
)
    requires
        cursor.line_index == text.len(),
        forall|i: int|
            0 <= i < cmds.len() ==> cmds[i] == NavCommand::NextLine || cmds[i]
                == NavCommand::NextWord,
    ensures
        cursor.after(text, NavCommand::NextLine) == cursor,
        cursor.after(text, NavCommand::NextWord) == cursor,
        cursor.after_all(text, cmds) == cursor,
    decreases cmds.len(),
{
    if cmds.len() > 0 {
        lemma_exhausted_stays(cursor, text, cmds.drop_last());
    }
}

/// `FromBeginning` leads to the first line with no word shown, whatever the
/// cursor was before, and a second `FromBeginning` changes nothing more.
pub proof fn lemma_from_beginning_resets(cursor: Position, text: Seq<Seq<Seq<char>>>)
    ensures
        cursor.after(text, NavCommand::FromBeginning).line_index == 0,
        cursor.after(text, NavCommand::FromBeginning).word_index == 0,
        cursor.after(text, NavCommand::FromBeginning).last_command is None,
        cursor.after(text, NavCommand::FromBeginning).after(text, NavCommand::FromBeginning)
            == cursor.after(text, NavCommand::FromBeginning),
{
}

} // verus!
