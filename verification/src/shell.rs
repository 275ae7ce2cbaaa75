//! The program's shell: which mode it is in, and what each key press asks
//! for. The shell decides; the caller carries the actions out.

use crate::keys::{Key, NavMenu};
use crate::nav::NavCommand;
use vstd::prelude::*;

verus! {

/// Something for the caller to carry out, in answer to a key press.
#[derive(Clone, Copy, Debug, PartialEq, Eq, Structural)]
pub enum ShellAction {
    /// Restore the terminal and leave the program.
    Exit,
    /// Show the help.
    ShowHelp,
    /// Show the main menu.
    ShowIntro,
    /// Show the names of the texts that can be loaded.
    ListTexts,
    /// Ask for the name of a text.
    PromptForText,
    /// Say that the key means nothing here.
    Unhandled,
    /// Load the text whose name was entered, and say how to navigate it.
    LoadText,
    /// Show `ch` in column `col` of the row on which the name is entered.
    EchoChar { col: u16, ch: char },
    /// Wipe that row from column `col` on.
    EraseChar { col: u16 },
    /// Clear the screen and start the text from its beginning.
    ClearScreen,
    /// Hand the command to the render engine.
    Navigate(NavCommand),
}

/// The shell's state: whether a text's name is being entered, whether a text
/// is being navigated, the name entered so far, the column in which the
/// next character of the name will stand, and the key pressed before.
pub struct MnemoState {
    pub entering_text: bool,
    pub navigating_text: bool,
    pub requested_text: String,
    pub stdout_index: u16,
    pub prev_key: Option<Key>,
}

/// The shell's state, with the name as a sequence of characters.
pub ghost struct ShellView {
    pub entering_text: bool,
    pub navigating_text: bool,
    pub requested_text: Seq<char>,
    pub stdout_index: u16,
    pub prev_key: Option<Key>,
}

impl View for MnemoState {
    type V = ShellView;

    open spec fn view(&self) -> ShellView {
        ShellView {
            entering_text: self.entering_text,
            navigating_text: self.navigating_text,
            requested_text: self.requested_text@,
            stdout_index: self.stdout_index,
            prev_key: self.prev_key,
        }
    }
}

/// The column to the right of `col`, as far as a `u16` can name one.
pub open spec fn next_col(col: u16) -> u16 {
    if col < u16::MAX {
        (col + 1) as u16
    } else {
        col
    }
}

/// The column to the left of `col`; the first column has none.
pub open spec fn prev_col(col: u16) -> u16 {
    if col > 1 {
        (col - 1) as u16
    } else {
        1
    }
}

impl ShellView {
    /// The key leaves the program: Ctrl-C always, and `q` unless a name is
    /// being entered.
    pub open spec fn exits(self, key: Key) -> bool {
        key == Key::Ctrl('c') || (!self.entering_text && NavMenu::of_key(key) == Some(
            NavMenu::Quit,
        ))
    }

    /// The key opens the entry of a name: `e` in the main menu.
    pub open spec fn opens_entry(self, key: Key) -> bool {
        !self.exits(key) && !self.entering_text && !self.navigating_text && NavMenu::of_key(key)
            == Some(NavMenu::EnterText)
    }

    /// The key ends the entry of a name: the line feed.
    pub open spec fn ends_entry(self, key: Key) -> bool {
        !self.exits(key) && self.entering_text && key == Key::Char('\n')
    }

    /// What the menu does with the key, outside the entry of a name.
    pub open spec fn menu_actions(self, key: Key) -> Seq<ShellAction> {
        if self.entering_text {
            seq![]
        } else if NavMenu::of_key(key) == Some(NavMenu::MainMenu) {
            seq![ShellAction::ShowIntro]
        } else if self.navigating_text {
            seq![]
        } else if NavMenu::of_key(key) == Some(NavMenu::Help) {
            seq![ShellAction::ShowHelp]
        } else if NavMenu::of_key(key) == Some(NavMenu::ListTexts) {
            seq![ShellAction::ListTexts]
        } else if NavMenu::of_key(key) == Some(NavMenu::EnterText) {
            seq![ShellAction::PromptForText]
        } else {
            seq![ShellAction::Unhandled]
        }
    }

    /// What the entry of a name does with the key.
    pub open spec fn entry_actions(self, key: Key) -> Seq<ShellAction> {
        if !self.entering_text {
            seq![]
        } else {
            match key {
                Key::Char(ch) => if ch == '\n' {
                    seq![ShellAction::LoadText]
                } else {
                    seq![ShellAction::EchoChar { col: self.stdout_index, ch }]
                },
                Key::Backspace => seq![ShellAction::EraseChar { col: prev_col(self.stdout_index) }],
                _ => seq![],
            }
        }
    }

    /// What navigation does with the key: the first key after a line feed
    /// clears the screen, and a navigation key gives its command. The line
    /// feed that ends the entry of a name does neither.
    pub open spec fn navigation_actions(self, key: Key) -> Seq<ShellAction> {
        if !self.navigating_text || self.ends_entry(key) {
            seq![]
        } else {
            let clear = if self.prev_key == Some(Key::Char('\n')) {
                seq![ShellAction::ClearScreen]
            } else {
                seq![]
            };
            let command = match NavCommand::of_key(key) {
                Some(cmd) => seq![ShellAction::Navigate(cmd)],
                None => seq![],
            };
            clear + command
        }
    }

    /// The actions that the key asks for, in the order in which they are to
    /// be carried out.
    pub open spec fn actions_for(self, key: Key) -> Seq<ShellAction> {
        if self.exits(key) {
            seq![ShellAction::Exit]
        } else {
            self.menu_actions(key) + self.entry_actions(key) + self.navigation_actions(key)
        }
    }

    /// The state after the key. A key that leaves the program changes
    /// nothing. `e` in the main menu opens the entry of a name, and is not
    /// kept as the key pressed before. During the entry a line feed ends it
    /// and starts navigation, a character is added to the name, and
    /// backspace takes the last character away. Every other key is only
    /// kept as the key pressed before.
    pub open spec fn after_key(self, key: Key) -> ShellView {
        if self.exits(key) {
            self
        } else if self.opens_entry(key) {
            ShellView { entering_text: true, ..self }
        } else if self.ends_entry(key) {
            ShellView {
                entering_text: false,
                navigating_text: true,
                prev_key: Some(key),
                ..self
            }
        } else if self.entering_text {
            match key {
                Key::Char(ch) => ShellView {
                    requested_text: self.requested_text.push(ch),
                    stdout_index: next_col(self.stdout_index),
                    prev_key: Some(key),
                    ..self
                },
                Key::Backspace => ShellView {
                    requested_text: if self.requested_text.len() > 0 {
                        self.requested_text.drop_last()
                    } else {
                        self.requested_text
                    },
                    stdout_index: prev_col(self.stdout_index),
                    prev_key: Some(key),
                    ..self
                },
                _ => ShellView { prev_key: Some(key), ..self },
            }
        } else {
            ShellView { prev_key: Some(key), ..self }
        }
    }
}

/// `String::push`. Trusted: the character is added at the end.
#[verifier::external_body]
fn push_char(s: &mut String, ch: char)
    ensures
        final(s)@ == old(s)@.push(ch),
{
    s.push(ch)
}

/// `String::pop`. Trusted: the last character is taken away and returned;
/// an empty string stays empty and nothing is returned.
#[verifier::external_body]
fn pop_char(s: &mut String) -> (last: Option<char>)
    ensures
        old(s)@.len() == 0 ==> last is None && final(s)@ == old(s)@,
        old(s)@.len() > 0 ==> last == Some(old(s)@.last()) && final(s)@ == old(s)@.drop_last(),
{
    s.pop()
}

impl MnemoState {
    /// The state in which the program starts: in the main menu, with no
    /// name entered.
    pub fn new() -> (state: MnemoState)
        ensures
            state@ == (ShellView {
                entering_text: false,
                navigating_text: false,
                requested_text: Seq::<char>::empty(),
                stdout_index: 1,
                prev_key: None,
            }),
    {
        MnemoState {
            entering_text: false,
            navigating_text: false,
            requested_text: String::new(),
            stdout_index: 1,
            prev_key: None,
        }
    }

    /// Takes one key press: the state moves on, and the actions that the key
    /// asks for come back in the order in which they are to be carried out.
    pub fn on_key(&mut self, key: &Key) -> (actions: Vec<ShellAction>)
        ensures
            final(self)@ == old(self)@.after_key(*key),
            actions@ == old(self)@.actions_for(*key),
    {
        let mut actions: Vec<ShellAction> = Vec::new();
        let menu = NavMenu::from_event(key);
        let navigating = self.navigating_text;
        let mut ended_entry = false;
        let is_interrupt = match key {
            Key::Ctrl('c') => true,
            _ => false,
        };
        let is_quit = match menu {
            Some(NavMenu::Quit) => !self.entering_text,
            _ => false,
        };
        if is_interrupt || is_quit {
            actions.push(ShellAction::Exit);
            return actions;
        }
        if !self.entering_text {
            match menu {
                Some(NavMenu::MainMenu) => {
                    actions.push(ShellAction::ShowIntro);
                },
                Some(NavMenu::Help) => {
                    if !self.navigating_text {
                        actions.push(ShellAction::ShowHelp);
                    }
                },
                Some(NavMenu::ListTexts) => {
                    if !self.navigating_text {
                        actions.push(ShellAction::ListTexts);
                    }
                },
                Some(NavMenu::EnterText) => {
                    if !self.navigating_text {
                        actions.push(ShellAction::PromptForText);
                        self.entering_text = true;
                        return actions;
                    }
                },
                _ => {
                    if !self.navigating_text {
                        actions.push(ShellAction::Unhandled);
                    }
                },
            }
        } else {
            match key {
                Key::Char(ch) => {
                    if *ch == '\n' {
                        actions.push(ShellAction::LoadText);
                        ended_entry = true;
                        self.entering_text = false;
                        self.navigating_text = true;
                    } else {
                        actions.push(ShellAction::EchoChar { col: self.stdout_index, ch: *ch });
                        push_char(&mut self.requested_text, *ch);
                        if self.stdout_index < u16::MAX {
                            self.stdout_index += 1;
                        }
                    }
                },
                Key::Backspace => {
                    if self.stdout_index > 1 {
                        self.stdout_index -= 1;
                    } else {
                        self.stdout_index = 1;
                    }
                    let _ = pop_char(&mut self.requested_text);
                    actions.push(ShellAction::EraseChar { col: self.stdout_index });
                },
                _ => {},
            }
        }
        if navigating && !ended_entry {
            let after_line_feed = match self.prev_key {
                Some(Key::Char(c)) => c == '\n',
                _ => false,
            };
            if after_line_feed {
                actions.push(ShellAction::ClearScreen);
            }
            match NavCommand::from_event(key) {
                Some(cmd) => {
                    actions.push(ShellAction::Navigate(cmd));
                },
                None => {},
            }
        }
        self.prev_key = Some(*key);
        actions
    }
}

} // verus!
