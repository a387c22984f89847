use xt_keyboard_tester::input::{InputMode, TerminalModifiers};
use xt_keyboard_tester::layout::{
    style_colors, TermColor, draw, draw_key, draw_key_group, draw_mac, draw_mac_row, draw_xt, draw_xt_row, mac_visual,
    xt_keypad_id, xt_main_id, Cell, KeyLookup, Style, XT_KEYPAD_1, XT_MAIN_1, XT_PREFIX_1,
};
use xt_keyboard_tester::tracker::{KeyTracker, KeyVisual};

fn no_mods() -> TerminalModifiers {
    TerminalModifiers { shift: false, control: false, alt: false, super_key: false, hyper: false, meta: false }
}

fn find<'a>(cells: &'a [Cell], text: &str) -> &'a Cell {
    cells.iter().find(|c| c.text == text).expect("cell present")
}

#[test]
fn key_caps_are_centred_and_cut() {
    let c = draw_key(3, 4, 5, "F1", KeyVisual::Down);
    assert_eq!((c.x, c.y, c.text.as_str(), c.style), (3, 4, "[F1 ]", Style::Key(KeyVisual::Down)));
    assert_eq!(draw_key(0, 0, 11, "Backspace", KeyVisual::Never).text, "[Backspace]");
    assert_eq!(draw_key(0, 0, 6, "Backspace", KeyVisual::Never).text, "[Back]");
    assert_eq!(draw_key(0, 0, 7, "A", KeyVisual::Seen).text, "[  A  ]");
    assert_eq!(draw_key(0, 0, 1, "A", KeyVisual::Seen).text, "[]");
    assert_eq!(draw_key(0, 0, 5, "←", KeyVisual::Seen).text.chars().count(), 5);
}

#[test]
fn xt_labels_name_their_keys() {
    assert_eq!(xt_main_id("Esc"), "ESC");
    assert_eq!(xt_main_id("Backspace"), "BACKSPACE");
    assert_eq!(xt_main_id("Enter"), "ENTER");
    assert_eq!(xt_main_id("Space"), "SPACE");
    assert_eq!(xt_main_id("Q"), "Q");
    assert_eq!(xt_keypad_id("NumLock"), "NUMLOCK");
    assert_eq!(xt_keypad_id("0Ins"), "KP_INS");
    assert_eq!(xt_keypad_id("*Prt"), "PRINT");
    assert_eq!(xt_keypad_id("KP -"), "KP_MINUS");
    assert_eq!(xt_keypad_id("5"), "5");
}

#[test]
fn key_groups_advance_one_column_past_each_cap() {
    let mut keys = KeyTracker::new();
    keys.press("ESC");
    let cells = draw_key_group(10, 2, &[("Esc", 4), ("1", 5)], &keys, KeyLookup::XtMain);
    assert_eq!(cells.len(), 2);
    assert_eq!((cells[0].x, cells[0].text.as_str(), cells[0].style), (10, "[Es]", Style::Key(KeyVisual::Down)));
    assert_eq!((cells[1].x, cells[1].text.as_str(), cells[1].style), (15, "[ 1 ]", Style::Key(KeyVisual::Never)));
}

#[test]
fn xt_rows_place_prefix_main_and_keypad() {
    let mut keys = KeyTracker::new();
    keys.release("KP_INS");
    let row = draw_xt_row(19, &keys, XT_PREFIX_1, &XT_MAIN_1, &XT_KEYPAD_1);
    assert_eq!(row.len(), 3 + 13 + 2);
    assert_eq!((row[0].x, row[0].text.as_str()), (2, "[F1 ]"));
    assert_eq!((row[1].x, row[1].text.as_str()), (8, "[F6 ]"));
    assert_eq!((row[2].x, row[2].text.as_str()), (15, "[Esc]"));
    assert_eq!((row[3].x, row[3].text.as_str()), (21, "[1 ]"));
    assert_eq!((row[16].x, row[16].text.as_str()), (103, "[NumLoc]"));
    let xt = draw_xt(&keys);
    assert_eq!(xt.len(), 18 + 20 + 19 + 17 + 7);
    let ins = find(&xt, "[0In]");
    assert_eq!((ins.y, ins.style), (27, Style::Key(KeyVisual::Seen)));
}

#[test]
fn mac_caps_follow_modifiers_and_shared_keys() {
    let mut keys = KeyTracker::new();
    let mut shift = no_mods();
    shift.shift = true;
    assert_eq!(mac_visual(&keys, shift, "L Shift"), KeyVisual::Down);
    assert_eq!(mac_visual(&keys, shift, "R Shift"), KeyVisual::Down);
    assert_eq!(mac_visual(&keys, no_mods(), "L Shift"), KeyVisual::Never);
    keys.press("FORWARD_DELETE");
    assert_eq!(mac_visual(&keys, no_mods(), "Backspace"), KeyVisual::Down);
    keys.release("PGDN");
    assert_eq!(mac_visual(&keys, no_mods(), "↓"), KeyVisual::Seen);
    keys.press("RETURN");
    assert_eq!(mac_visual(&keys, no_mods(), "Return"), KeyVisual::Down);
    keys.press("Q");
    assert_eq!(mac_visual(&keys, no_mods(), "Q"), KeyVisual::Down);
    let row = draw_mac_row(9, &[("Tab", 8), ("Q", 5)], &keys, no_mods());
    assert_eq!((row[1].x, row[1].text.as_str(), row[1].style), (11, "[ Q ]", Style::Key(KeyVisual::Down)));
    let mac = draw_mac(&keys, no_mods());
    assert_eq!(mac.len(), 13 + 14 + 14 + 13 + 12 + 11);
    let space = find(&mac, &format!("[{}Space{}]", " ".repeat(10), " ".repeat(11)));
    assert_eq!((space.x, space.y), (32, 15));
}

#[test]
fn small_terminal_gets_only_a_resize_request() {
    let keys = KeyTracker::new();
    let cells = draw(131, 40, &keys, &keys, no_mods(), InputMode::Kitty, "x");
    assert_eq!(cells.len(), 1);
    assert_eq!(
        (cells[0].x, cells[0].y, cells[0].text.as_str(), cells[0].style),
        (2, 2, "Resize terminal to at least 132x31 (currently 131x40). Ctrl-Q exits.", Style::Plain)
    );
}

#[test]
fn full_screen_has_headings_keyboards_and_note() {
    let keys = KeyTracker::new();
    let cells = draw(132, 31, &keys, &keys, no_mods(), InputMode::KittyUnavailable, &"z".repeat(200));
    assert_eq!(cells.len(), 5 + 77 + 1 + 81 + 1);
    assert_eq!(cells[0].text, "MacBook Pro → IBM PC/XT Model F keyboard tester");
    assert_eq!(cells[0].style, Style::Title);
    assert_eq!(
        cells[1].text,
        "Kitty keyboard protocol unavailable: using basic input and simulated releases."
    );
    assert_eq!(cells[1].style, Style::Protocol(InputMode::KittyUnavailable));
    assert_eq!(cells[3].text.chars().count(), 128);
    assert_eq!(cells[3].style, Style::LastEvent);
    assert_eq!(cells[4].text, "MacBook Pro (ANSI U.S.)");
    assert_eq!((cells[82].y, cells[82].text.as_str()), (17, "Virtual IBM PC/XT 83-key Model F — mapped key state"));
    let last = &cells[cells.len() - 1];
    assert_eq!((last.x, last.y, last.style), (2, 30, Style::Footnote));
}

#[test]
fn key_caps_follow_the_legend_colours() {
    assert_eq!(style_colors(Style::Key(KeyVisual::Never)), (Some(TermColor::DarkGrey), Some(TermColor::White)));
    assert_eq!(style_colors(Style::Key(KeyVisual::Seen)), (Some(TermColor::DarkBlue), Some(TermColor::White)));
    assert_eq!(style_colors(Style::Key(KeyVisual::Down)), (Some(TermColor::Green), Some(TermColor::Black)));
}

#[test]
fn protocol_line_colour_follows_input_mode() {
    assert_eq!(style_colors(Style::Protocol(InputMode::Kitty)), (None, Some(TermColor::Green)));
    assert_eq!(style_colors(Style::Protocol(InputMode::Basic)), (None, Some(TermColor::Yellow)));
    assert_eq!(style_colors(Style::Protocol(InputMode::KittyUnavailable)), (None, Some(TermColor::Red)));
}

#[test]
fn text_line_colours() {
    assert_eq!(style_colors(Style::Plain), (None, None));
    assert_eq!(style_colors(Style::Title), (None, Some(TermColor::Cyan)));
    assert_eq!(style_colors(Style::LastEvent), (None, Some(TermColor::Yellow)));
    assert_eq!(style_colors(Style::Footnote), (None, Some(TermColor::DarkGrey)));
}

#[test]
fn seen_function_key_is_blue_with_odd_space_right() {
    let c = draw_key(9, 5, 5, "F1", KeyVisual::Seen);
    assert_eq!((c.x, c.y, c.text.as_str()), (9, 5, "[F1 ]"));
    assert_eq!(style_colors(c.style), (Some(TermColor::DarkBlue), Some(TermColor::White)));
}
