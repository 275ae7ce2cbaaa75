use mnemo::engine::RenderEngine;
use mnemo::nav::{NavCommand, NavigationCursor};
use mnemo::screen::StdoutState;
use mnemo::text::{Line, Text};

const HI: &str = "\x1b[38;5;14m";
const LO: &str = "\x1b[39m";

fn engine(raw: &str) -> RenderEngine {
    RenderEngine::new(Text::parse(raw))
}

fn two_lines() -> RenderEngine {
    engine("ask not what\nyour country")
}

fn apply(e: &mut RenderEngine, cmd: NavCommand) -> String {
    let mut out = String::new();
    e.apply(cmd, &mut out);
    out
}

fn state(e: &RenderEngine) -> (usize, usize, u16) {
    (e.cursor.line_index, e.cursor.word_index, e.screen.curr_row)
}

/// What is left of `out` when the control sequences are taken out.
fn visible(out: &str) -> String {
    let mut shown = String::new();
    let mut chars = out.chars();
    while let Some(c) = chars.next() {
        if c == '\x1b' {
            assert_eq!(chars.next(), Some('['));
            for d in chars.by_ref() {
                if ('\x40'..='\x7e').contains(&d) {
                    break;
                }
            }
        } else {
            shown.push(c);
        }
    }
    shown
}

fn row_of(line_index: usize, count: usize) -> u16 {
    if count == 0 {
        1
    } else if line_index < count {
        (line_index + 1) as u16
    } else {
        count as u16
    }
}

#[test]
fn new_engine_starts_at_the_top() {
    let e = two_lines();
    assert_eq!(state(&e), (0, 0, 1));
    assert_eq!(e.cursor.last_command, None);
    assert_eq!(e.screen.curr_col, 1);
    assert_eq!(e.text.length, 2);
}

#[test]
fn three_next_lines_reveal_both_lines_then_stop() {
    let mut e = two_lines();
    let out = apply(&mut e, NavCommand::NextLine);
    assert_eq!(out, format!("\x1b[1;1H\x1b[2K{HI}ask not what{LO}\x1b[2;1H"));
    assert_eq!(state(&e), (1, 0, 2));
    let out = apply(&mut e, NavCommand::NextLine);
    assert_eq!(out, format!("\x1b[2;1H\x1b[2K{HI}your country{LO}"));
    assert_eq!(state(&e), (2, 0, 2));
    let out = apply(&mut e, NavCommand::NextLine);
    assert_eq!(out, "");
    assert_eq!(state(&e), (2, 0, 2));
    assert_eq!(e.cursor.line_index, 2);
}

#[test]
fn four_next_words_then_next_line() {
    let mut e = two_lines();
    let out = apply(&mut e, NavCommand::NextWord);
    assert_eq!(out, format!("\x1b[1;1H\x1b[2K{LO}{HI}\x1b[1;1Hask{LO}"));
    assert_eq!(visible(&out), "ask");
    assert_eq!(state(&e), (0, 1, 1));
    let out = apply(&mut e, NavCommand::NextWord);
    assert_eq!(out, format!("\x1b[1;1H\x1b[2K{LO}ask{HI}\x1b[1;4H not{LO}"));
    assert_eq!(visible(&out), "ask not");
    assert_eq!(state(&e), (0, 2, 1));
    assert_eq!(e.screen.curr_col, 4);
    let out = apply(&mut e, NavCommand::NextWord);
    assert_eq!(out, format!("\x1b[1;1H\x1b[2K{LO}ask not{HI}\x1b[1;8H what{LO}"));
    assert_eq!(visible(&out), "ask not what");
    assert_eq!(state(&e), (0, 3, 1));
    // the line is complete: the next word is on the next row
    let out = apply(&mut e, NavCommand::NextWord);
    assert!(out.starts_with("\x1b[2;1H"));
    assert_eq!(out, format!("\x1b[2;1H\x1b[2;1H\x1b[2K{LO}{HI}\x1b[2;1Hyour{LO}"));
    assert_eq!(e.screen.curr_row, 2);
    assert_eq!(e.screen.curr_col, 1);
    assert_eq!((e.cursor.line_index, e.cursor.word_index), (1, 1));
    // the line in progress is shown in full, in neutral, and left behind
    let out = apply(&mut e, NavCommand::NextLine);
    assert_eq!(out, format!("\x1b[2;1H\x1b[2K{LO}your country{LO}"));
    assert_eq!(e.cursor.word_index, 0);
    assert_eq!(e.cursor.line_index, 2);
    assert_eq!(e.cursor.last_command, Some(NavCommand::NextLine));
}

#[test]
fn next_line_after_a_complete_word_reveal_moves_to_line_one() {
    let mut e = two_lines();
    for _ in 0..3 {
        apply(&mut e, NavCommand::NextWord);
    }
    assert_eq!(state(&e), (0, 3, 1));
    // nothing is left to show of the line: only the row advances
    let out = apply(&mut e, NavCommand::NextLine);
    assert_eq!(out, "\x1b[2;1H");
    assert_eq!(state(&e), (1, 0, 2));
}

#[test]
fn next_line_in_mid_reveal_shows_the_rest_in_neutral() {
    let mut e = two_lines();
    apply(&mut e, NavCommand::NextWord);
    let out = apply(&mut e, NavCommand::NextLine);
    assert_eq!(out, format!("\x1b[1;1H\x1b[2K{LO}ask not what{LO}\x1b[2;1H"));
    assert_eq!(state(&e), (1, 0, 2));
}

#[test]
fn next_line_then_prev_line_returns_to_first_row() {
    let mut e = two_lines();
    let first_row = e.screen.curr_row;
    apply(&mut e, NavCommand::NextLine);
    assert_eq!(e.cursor.line_index, 1);
    let out = apply(&mut e, NavCommand::PrevLine);
    assert_eq!(out, format!("\x1b[1;1H\x1b[1;1H\x1b[2K{HI}ask not what{LO}"));
    assert_eq!(e.cursor.line_index, 0);
    assert_eq!(e.cursor.word_index, 0);
    assert_eq!(e.screen.curr_row, first_row);
}

#[test]
fn empty_line_is_revealed_word_by_word_not_skipped() {
    let mut e = engine("a b\n\nc d");
    assert_eq!(e.text.get_line_by_ind(&1).unwrap().length, 1);
    apply(&mut e, NavCommand::NextLine);
    assert_eq!(state(&e), (1, 0, 2));
    let out = apply(&mut e, NavCommand::NextWord);
    assert_eq!(out, format!("\x1b[2;1H\x1b[2K{LO}{HI}\x1b[2;1H{LO}"));
    assert_eq!(visible(&out), "");
    assert_eq!(state(&e), (1, 1, 2));
    let out = apply(&mut e, NavCommand::NextWord);
    assert_eq!(out, format!("\x1b[3;1H\x1b[3;1H\x1b[2K{LO}{HI}\x1b[3;1Hc{LO}"));
    assert_eq!(state(&e), (2, 1, 3));
}

#[test]
fn empty_line_revealed_by_next_line() {
    let mut e = engine("a b\n\nc d");
    apply(&mut e, NavCommand::NextLine);
    let out = apply(&mut e, NavCommand::NextLine);
    assert_eq!(out, format!("\x1b[2;1H\x1b[2K{HI}{LO}\x1b[3;1H"));
    assert_eq!(state(&e), (2, 0, 3));
}

#[test]
fn prev_line_on_first_line_draws_nothing() {
    let mut e = two_lines();
    let out = apply(&mut e, NavCommand::PrevLine);
    assert_eq!(out, "");
    assert_eq!(state(&e), (0, 0, 1));
    assert_eq!(e.cursor.last_command, None);
}

#[test]
fn prev_line_from_exhausted_stays_on_the_last_row() {
    let mut e = two_lines();
    apply(&mut e, NavCommand::NextLine);
    apply(&mut e, NavCommand::NextLine);
    assert_eq!(state(&e), (2, 0, 2));
    let out = apply(&mut e, NavCommand::PrevLine);
    assert_eq!(out, format!("\x1b[2;1H\x1b[2K{HI}your country{LO}"));
    assert_eq!(state(&e), (1, 0, 2));
}

#[test]
fn next_word_when_exhausted_draws_nothing() {
    let mut e = two_lines();
    apply(&mut e, NavCommand::NextLine);
    apply(&mut e, NavCommand::NextLine);
    let col = e.screen.curr_col;
    for cmd in [NavCommand::NextWord, NavCommand::NextLine, NavCommand::NextWord] {
        let out = apply(&mut e, cmd);
        assert_eq!(out, "");
        assert_eq!(state(&e), (2, 0, 2));
        assert_eq!(e.screen.curr_col, col);
        assert_eq!(e.cursor.last_command, Some(NavCommand::NextLine));
    }
}

#[test]
fn next_word_at_end_of_last_line_exhausts_without_drawing() {
    let mut e = engine("a b");
    apply(&mut e, NavCommand::NextWord);
    apply(&mut e, NavCommand::NextWord);
    assert_eq!(state(&e), (0, 2, 1));
    let out = apply(&mut e, NavCommand::NextWord);
    assert_eq!(out, "");
    assert_eq!(state(&e), (1, 0, 1));
}

#[test]
fn from_beginning_resets_both_cursors_and_the_screen() {
    let mut e = two_lines();
    apply(&mut e, NavCommand::NextLine);
    apply(&mut e, NavCommand::NextWord);
    let out = apply(&mut e, NavCommand::FromBeginning);
    assert_eq!(out, "\x1b[2J\x1b[1;1H");
    assert_eq!(state(&e), (0, 0, 1));
    assert_eq!(e.screen.curr_col, 1);
    assert_eq!(e.cursor.last_command, None);
    let out = apply(&mut e, NavCommand::FromBeginning);
    assert_eq!(out, "\x1b[2J\x1b[1;1H");
    assert_eq!(state(&e), (0, 0, 1));
}

#[test]
fn apply_appends_to_what_is_in_the_buffer() {
    let mut e = two_lines();
    let mut out = String::from("before");
    e.apply(NavCommand::NextLine, &mut out);
    assert_eq!(out, format!("before\x1b[1;1H\x1b[2K{HI}ask not what{LO}\x1b[2;1H"));
}

#[test]
fn empty_text_draws_nothing() {
    let mut e = RenderEngine::new(Text::new(Vec::new()));
    for cmd in [NavCommand::NextLine, NavCommand::NextWord, NavCommand::PrevLine] {
        assert_eq!(apply(&mut e, cmd), "");
        assert_eq!(state(&e), (0, 0, 1));
    }
}

#[test]
fn word_reveals_of_a_line_add_up_to_the_line() {
    let raw = "ask not what\n a  b \nyour country";
    let mut e = engine(raw);
    let lines: Vec<&str> = raw.split('\n').collect();
    for (i, line) in lines.iter().enumerate() {
        let count = e.text.lines[i].length;
        let mut last = String::new();
        for w in 0..count {
            let out = apply(&mut e, NavCommand::NextWord);
            last = visible(&out);
            assert_eq!(Some(last.clone()), e.text.get_line_up_to_word(&i, &(w + 1)));
            assert_eq!((e.cursor.line_index, e.cursor.word_index), (i, w + 1));
        }
        assert_eq!(&last, line);
    }
}

#[test]
fn rows_move_by_one_and_follow_the_line_index() {
    let raw = "ask not what\n\nyour  country\nx";
    let all = [
        NavCommand::FromBeginning,
        NavCommand::PrevLine,
        NavCommand::NextLine,
        NavCommand::NextWord,
    ];
    for code in 0..4usize.pow(6) {
        let mut e = engine(raw);
        let mut rest = code;
        for _ in 0..6 {
            let cmd = all[rest % 4];
            rest /= 4;
            let before = e.screen.curr_row;
            apply(&mut e, cmd);
            let after = e.screen.curr_row;
            match cmd {
                NavCommand::NextLine => assert!(after == before || after == before + 1),
                NavCommand::PrevLine => assert!(after == before || after + 1 == before),
                NavCommand::FromBeginning => assert_eq!(after, 1),
                NavCommand::NextWord => assert!(after == before || after == before + 1),
            }
            assert!(after >= 1);
            assert_eq!(after, row_of(e.cursor.line_index, e.text.length));
        }
    }
}

#[test]
fn engine_follows_the_cursor_transition() {
    let raw = "ask not what\n\nyour  country\nx";
    let cmds = [
        NavCommand::NextWord,
        NavCommand::NextWord,
        NavCommand::NextLine,
        NavCommand::NextLine,
        NavCommand::NextWord,
        NavCommand::PrevLine,
        NavCommand::NextWord,
        NavCommand::NextLine,
        NavCommand::NextLine,
        NavCommand::NextLine,
        NavCommand::PrevLine,
        NavCommand::FromBeginning,
    ];
    let mut e = engine(raw);
    let text = Text::parse(raw);
    let mut c = NavigationCursor::new();
    for cmd in cmds {
        apply(&mut e, cmd);
        c = c.transition(&text, cmd);
        assert_eq!(
            (e.cursor.line_index, e.cursor.word_index, e.cursor.last_command),
            (c.line_index, c.word_index, c.last_command)
        );
    }
}

#[test]
fn line_without_words_is_passed_by_next_word() {
    let lines = vec![
        Line::new(vec!["a".to_string()]),
        Line::new(Vec::new()),
        Line::new(vec!["b".to_string()]),
    ];
    let mut e = RenderEngine::new(Text::new(lines));
    apply(&mut e, NavCommand::NextWord);
    assert_eq!(state(&e), (0, 1, 1));
    // the next line has no word to show: only the row advances
    let out = apply(&mut e, NavCommand::NextWord);
    assert_eq!(out, "\x1b[2;1H");
    assert_eq!(state(&e), (1, 0, 2));
    let out = apply(&mut e, NavCommand::NextWord);
    assert_eq!(out, format!("\x1b[3;1H\x1b[3;1H\x1b[2K{LO}{HI}\x1b[3;1Hb{LO}"));
    assert_eq!(state(&e), (2, 1, 3));
    assert!(e.is_valid());
}

#[test]
fn line_without_words_is_revealed_empty_by_next_line() {
    let lines = vec![Line::new(Vec::new()), Line::new(vec!["b".to_string()])];
    let mut e = RenderEngine::new(Text::new(lines));
    let out = apply(&mut e, NavCommand::NextLine);
    assert_eq!(out, format!("\x1b[1;1H\x1b[2K{HI}{LO}\x1b[2;1H"));
    assert_eq!(state(&e), (1, 0, 2));
}

#[test]
fn engine_is_valid_from_new_and_after_every_command() {
    let mut e = engine("ask not what\n\nyour  country\nx");
    assert!(e.is_valid());
    for cmd in [
        NavCommand::NextWord,
        NavCommand::NextLine,
        NavCommand::NextLine,
        NavCommand::NextWord,
        NavCommand::NextWord,
        NavCommand::PrevLine,
        NavCommand::NextLine,
        NavCommand::NextLine,
        NavCommand::NextLine,
        NavCommand::NextLine,
        NavCommand::PrevLine,
        NavCommand::FromBeginning,
    ] {
        apply(&mut e, cmd);
        assert!(e.is_valid());
    }
    assert!(RenderEngine::new(Text::new(Vec::new())).is_valid());
}

#[test]
fn engine_with_cursors_out_of_place_is_not_valid() {
    let mut e = two_lines();
    e.cursor.line_index = 3;
    assert!(!e.is_valid());
    let mut e = two_lines();
    e.cursor.word_index = 4;
    assert!(!e.is_valid());
    let mut e = two_lines();
    e.cursor.line_index = 2;
    e.cursor.word_index = 1;
    assert!(!e.is_valid());
    let mut e = two_lines();
    e.screen.curr_row = 2;
    assert!(!e.is_valid());
    let mut e = two_lines();
    e.screen.curr_row = 0;
    assert!(!e.is_valid());
    let mut e = two_lines();
    e.screen.curr_col = 0;
    assert!(!e.is_valid());
    let mut e = two_lines();
    e.cursor.line_index = 2;
    e.screen.curr_row = 2;
    assert!(e.is_valid());
    e.screen.curr_row = 3;
    assert!(!e.is_valid());
}

#[test]
fn show_line_highlights() {
    let t = Text::parse("ask not what");
    let mut out = String::from(">");
    t.show_line(&mut out, &"any line".to_string());
    assert_eq!(out, format!(">{HI}any line{LO}"));
}

#[test]
fn show_curr_line_highlights_the_current_line() {
    let t = Text::parse("ask not what\nyour country");
    let cursor = NavigationCursor { line_index: 1, word_index: 0, last_command: None };
    let mut out = String::new();
    t.show_curr_line(&mut out, &cursor);
    assert_eq!(out, format!("{HI}your country{LO}"));
}

#[test]
fn show_curr_line_behind_the_last_line_writes_nothing() {
    let t = Text::parse("ask not what\nyour country");
    for l in [2, 3, usize::MAX] {
        let cursor = NavigationCursor { line_index: l, word_index: 0, last_command: None };
        let mut out = String::from("kept");
        t.show_curr_line(&mut out, &cursor);
        assert_eq!(out, "kept");
        assert_eq!((cursor.line_index, cursor.word_index), (l, 0));
    }
    let empty = Text::new(Vec::new());
    let mut out = String::new();
    empty.show_curr_line(&mut out, &NavigationCursor::new());
    assert_eq!(out, "");
}

#[test]
fn redisplay_current_line_behind_the_last_line_writes_nothing() {
    let t = Text::parse("ask not what\nyour country");
    let screen = StdoutState { curr_row: 2, curr_col: 3 };
    for l in [2, 3, usize::MAX] {
        let cursor = NavigationCursor { line_index: l, word_index: 0, last_command: None };
        let mut out = String::from("kept");
        t.redisplay_current_line(&mut out, &screen, &cursor);
        assert_eq!(out, "kept");
    }
    assert_eq!((screen.curr_row, screen.curr_col), (2, 3));
}

#[test]
fn line_commands_leave_the_recorded_column() {
    let mut e = two_lines();
    apply(&mut e, NavCommand::NextWord);
    apply(&mut e, NavCommand::NextWord);
    assert_eq!(e.screen.curr_col, 4);
    apply(&mut e, NavCommand::NextLine);
    assert_eq!((e.screen.curr_row, e.screen.curr_col), (2, 4));
    apply(&mut e, NavCommand::PrevLine);
    assert_eq!((e.screen.curr_row, e.screen.curr_col), (1, 4));
    apply(&mut e, NavCommand::NextLine);
    apply(&mut e, NavCommand::NextLine);
    assert_eq!((e.screen.curr_row, e.screen.curr_col), (2, 4));
    apply(&mut e, NavCommand::FromBeginning);
    assert_eq!((e.screen.curr_row, e.screen.curr_col), (1, 1));
}

#[test]
fn next_word_across_a_line_boundary_resets_the_column() {
    let mut e = two_lines();
    for _ in 0..3 {
        apply(&mut e, NavCommand::NextWord);
    }
    assert_eq!(e.screen.curr_col, 8);
    apply(&mut e, NavCommand::NextWord);
    assert_eq!((e.screen.curr_row, e.screen.curr_col), (2, 1));
    let lines = vec![Line::new(vec!["a".to_string(), "b".to_string()]), Line::new(Vec::new())];
    let mut e = RenderEngine::new(Text::new(lines));
    apply(&mut e, NavCommand::NextWord);
    apply(&mut e, NavCommand::NextWord);
    assert_eq!(e.screen.curr_col, 2);
    apply(&mut e, NavCommand::NextWord);
    assert_eq!((e.screen.curr_row, e.screen.curr_col), (2, 1));
}

#[test]
fn redisplay_current_line_clears_and_writes() {
    let t = Text::parse("ask not what\nyour country");
    let cursor = NavigationCursor { line_index: 0, word_index: 2, last_command: None };
    let screen = StdoutState { curr_row: 14, curr_col: 3 };
    let mut out = String::new();
    t.redisplay_current_line(&mut out, &screen, &cursor);
    assert_eq!(out, "\x1b[2K\x1b[14;1Hask not what");
}
