//! Key presses, and the commands they stand for.

use crate::nav::NavCommand;
use vstd::prelude::*;

verus! {

/// A key press, as far as the program tells keys apart.
#[derive(Clone, Copy, Debug, PartialEq, Eq, Structural)]
pub enum Key {
    /// A character key.
    Char(char),
    /// A character key pressed together with Ctrl.
    Ctrl(char),
    /// The backspace key.
    Backspace,
    /// Any other key.
    Other,
}

/// A choice from the main menu.
#[derive(Clone, Copy, Debug, PartialEq, Eq, Structural)]
pub enum NavMenu {
    Quit,
    Help,
    ListTexts,
    EnterText,
    MainMenu,
}

impl NavMenu {
    /// The menu choice that `key` stands for: `q` quits, `h` asks for help,
    /// `l` lists the texts, `e` enters a text's name, `m` goes to the main
    /// menu. No other key stands for one.
    pub open spec fn of_key(key: Key) -> Option<NavMenu> {
        if key == Key::Char('q') {
            Some(NavMenu::Quit)
        } else if key == Key::Char('h') {
            Some(NavMenu::Help)
        } else if key == Key::Char('l') {
            Some(NavMenu::ListTexts)
        } else if key == Key::Char('e') {
            Some(NavMenu::EnterText)
        } else if key == Key::Char('m') {
            Some(NavMenu::MainMenu)
        } else {
            None
        }
    }

    /// The menu choice that the key stands for, if any.
    pub fn from_event(char: &Key) -> (choice: Option<NavMenu>)
        ensures
            choice == Self::of_key(*char),
    {
        match char {
            Key::Char('q') => Some(NavMenu::Quit),
            Key::Char('h') => Some(NavMenu::Help),
            Key::Char('l') => Some(NavMenu::ListTexts),
            Key::Char('e') => Some(NavMenu::EnterText),
            Key::Char('m') => Some(NavMenu::MainMenu),
            _ => None,
        }
    }
}

impl NavCommand {
    /// The navigation command that `key` stands for: `z` starts from the
    /// beginning, `x` goes to the previous line, `c` to the next line, `v`
    /// to the next word. No other key stands for one.
    pub open spec fn of_key(key: Key) -> Option<NavCommand> {
        if key == Key::Char('z') {
            Some(NavCommand::FromBeginning)
        } else if key == Key::Char('x') {
            Some(NavCommand::PrevLine)
        } else if key == Key::Char('c') {
            Some(NavCommand::NextLine)
        } else if key == Key::Char('v') {
            Some(NavCommand::NextWord)
        } else {
            None
        }
    }

    /// The navigation command that the key stands for, if any.
    pub fn from_event(char: &Key) -> (command: Option<NavCommand>)
        ensures
            command == Self::of_key(*char),
    {
        match char {
            Key::Char('z') => Some(NavCommand::FromBeginning),
            Key::Char('x') => Some(NavCommand::PrevLine),
            Key::Char('c') => Some(NavCommand::NextLine),
            Key::Char('v') => Some(NavCommand::NextWord),
            _ => None,
        }
    }
}

} // verus!
