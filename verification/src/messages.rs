//! The two fixed screens of the program: the main menu and the help.

use crate::ansi::{
    bold_code, bold_sequence, clear_screen_code, clear_screen_sequence, goto_code, goto_sequence,
    hide_cursor_code, hide_cursor_sequence, italic_code, italic_sequence, plain_code,
    plain_sequence,
};
use vstd::prelude::*;

verus! {

/// The program's name as a title: bold, italic, then plain again.
pub open spec fn title_output(name: Seq<char>) -> Seq<char> {
    bold_code() + italic_code() + name + plain_code()
}

/// One entry of the main menu: at the start of `row`, the key in bold and
/// what it does.
pub open spec fn menu_entry_output(row: u16, key: Seq<char>, label: Seq<char>) -> Seq<char> {
    goto_code(1, row) + bold_code() + key + plain_code() + label
}

/// The main menu: the screen is cleared, the title stands on the first row,
/// one entry on each of the four rows below, and the cursor is hidden.
pub open spec fn intro_output() -> Seq<char> {
    clear_screen_code() + goto_code(1, 1) + title_output("Mnemo!"@) + "\n        "@
        + menu_entry_output(2, "q"@, " to exit.\n        "@) + menu_entry_output(
        3,
        "h"@,
        " for help.\n        "@,
    ) + menu_entry_output(4, "l"@, " to list texts.\n        "@) + menu_entry_output(
        5,
        "e"@,
        " to enter a text."@,
    ) + hide_cursor_code()
}

/// The help: the screen is cleared, what the program is for stands on the
/// first row, how to use it on the third, and the way back on the fifth.
pub open spec fn help_output() -> Seq<char> {
    clear_screen_code() + goto_code(1, 1) + title_output("Mnemo"@)
        + " is a tiny app to help you memorise short texts like poems, book openings, or quotes."@
        + goto_code(1, 3) + "Save the text into "@ + italic_code() + "'texts/'"@ + plain_code()
        + " and then run "@ + title_output("Mnemo"@) + "\n        "@ + goto_code(1, 5)
        + "Press 'm' to go back to the main menu"@
}

fn title(out: &mut String, name: &str)
    ensures
        final(out)@ == old(out)@ + title_output(name@),
{
    out.append(bold_sequence().as_str());
    out.append(italic_sequence().as_str());
    out.append(name);
    out.append(plain_sequence().as_str());
}

fn menu_entry(out: &mut String, row: u16, key: &str, label: &str)
    requires
        row >= 1,
    ensures
        final(out)@ == old(out)@ + menu_entry_output(row, key@, label@),
{
    out.append(goto_sequence(1, row).as_str());
    out.append(bold_sequence().as_str());
    out.append(key);
    out.append(plain_sequence().as_str());
    out.append(label);
}

/// What shows the main menu.
pub fn intro_message() -> (message: String)
    ensures
        message@ == intro_output(),
{
    let mut out = clear_screen_sequence();
    out.append(goto_sequence(1, 1).as_str());
    title(&mut out, "Mnemo!");
    out.append("\n        ");
    menu_entry(&mut out, 2, "q", " to exit.\n        ");
    menu_entry(&mut out, 3, "h", " for help.\n        ");
    menu_entry(&mut out, 4, "l", " to list texts.\n        ");
    menu_entry(&mut out, 5, "e", " to enter a text.");
    out.append(hide_cursor_sequence().as_str());
    out
}

/// What shows the help.
pub fn help_message() -> (message: String)
    ensures
        message@ == help_output(),
{
    let mut out = clear_screen_sequence();
    out.append(goto_sequence(1, 1).as_str());
    title(&mut out, "Mnemo");
    out.append(
        " is a tiny app to help you memorise short texts like poems, book openings, or quotes.",
    );
    out.append(goto_sequence(1, 3).as_str());
    out.append("Save the text into ");
    out.append(italic_sequence().as_str());
    out.append("'texts/'");
    out.append(plain_sequence().as_str());
    out.append(" and then run ");
    title(&mut out, "Mnemo");
    out.append("\n        ");
    out.append(goto_sequence(1, 5).as_str());
    out.append("Press 'm' to go back to the main menu");
    out
}

} // verus!
