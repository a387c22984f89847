use xt_keyboard_tester::describe::{KeyEventText, MappedKey};
use xt_keyboard_tester::input::{
    InputEvent, InputKey, InputKind, InputMode, Modifiers, TerminalKeyCode, TerminalKeyEvent,
    TerminalKeyKind, TerminalModifiers,
};
use xt_keyboard_tester::schedule::PcEvent;
use xt_keyboard_tester::session::{KeyAction, Session};
use xt_keyboard_tester::tracker::KeyVisual;

fn mods(shift: bool, control: bool) -> TerminalModifiers {
    TerminalModifiers { shift, control, alt: false, super_key: false, hyper: false, meta: false }
}

fn text(code: &str) -> KeyEventText {
    KeyEventText { code: code.to_owned(), modifiers: "Shift".to_owned(), state: "s".to_owned() }
}

fn key(code: TerminalKeyCode, m: TerminalModifiers, kind: TerminalKeyKind) -> TerminalKeyEvent {
    TerminalKeyEvent::new_with_kind(code, m, kind)
}

#[test]
fn starts_waiting() {
    let s = Session::new();
    assert_eq!(s.last(), "Waiting for a key event");
    assert_eq!(s.mac_keys().visual("A"), KeyVisual::Never);
}

#[test]
fn handles_quit_unsupported_and_mapped_keys() {
    let mut s = Session::new();
    assert_eq!(
        s.handle_key(&key(TerminalKeyCode::Char('q'), mods(false, true), TerminalKeyKind::Press), &text("q")),
        KeyAction::Quit
    );
    assert_eq!(
        s.handle_key(&key(TerminalKeyCode::Tab, mods(false, false), TerminalKeyKind::Press), &text("Tab")),
        KeyAction::Unsupported
    );
    assert_eq!(s.last(), "Press  code=Tab  → unsupported terminal key");
    assert_eq!(
        s.handle_key(&key(TerminalKeyCode::Char('a'), mods(true, false), TerminalKeyKind::Press), &text("a")),
        KeyAction::Forward(InputEvent::new(
            InputKey::Char('a'),
            Modifiers { shift: true, control: false, alt: false, super_key: false },
            InputKind::Press,
        ))
    );
}

#[test]
fn press_repeat_release_cycle() {
    let mut s = Session::new();
    let mapped = [MappedKey { id: "A".to_owned(), make: vec![0x1e], break_sequence: vec![0x9e] }];
    let press = key(TerminalKeyCode::Char('a'), mods(true, false), TerminalKeyKind::Press);
    assert!(s.record_input(&press, &text("a"), "A", &mapped, 1000));
    assert_eq!(s.mac_keys().visual("A"), KeyVisual::Down);
    assert_eq!(s.deadlines().deadline("A"), Some(1120));
    assert!(s.modifiers().shift);
    assert_eq!(s.last(), "Press  code=a  modifiers=Shift  state=s  → A=[1E]/[9E]");
    s.apply_xt_events(vec![PcEvent::Make("A".to_owned())]);
    assert_eq!(s.xt_keys().visual("A"), KeyVisual::Down);

    let repeat = key(TerminalKeyCode::Char('a'), mods(true, false), TerminalKeyKind::Repeat);
    assert!(!s.record_input(&repeat, &text("a"), "A", &mapped, 1100));
    assert_eq!(s.deadlines().deadline("A"), Some(1220));
    assert!(s.tick(1219).is_empty());
    assert_eq!(s.mac_keys().visual("A"), KeyVisual::Down);

    let release = key(TerminalKeyCode::Char('a'), mods(true, false), TerminalKeyKind::Release);
    assert!(s.record_input(&release, &text("a"), "A", &mapped, 1150));
    assert_eq!(s.mac_keys().visual("A"), KeyVisual::Seen);
    assert_eq!(s.deadlines().deadline("A"), None);
    assert!(s.modifiers().is_empty());
    assert!(s.tick(5000).is_empty());
}

#[test]
fn missing_release_is_simulated_after_delay() {
    let mut s = Session::new();
    let press = key(TerminalKeyCode::Enter, mods(false, true), TerminalKeyKind::Press);
    assert!(s.record_input(&press, &text("Enter"), "RETURN", &[], 0));
    assert!(s.tick(119).is_empty());
    assert!(s.modifiers().control);
    assert_eq!(s.tick(120), vec!["RETURN".to_owned()]);
    assert_eq!(s.mac_keys().visual("RETURN"), KeyVisual::Seen);
    assert!(s.modifiers().is_empty());
}

#[test]
fn frame_uses_session_state() {
    let s = Session::new();
    let cells = s.frame(200, 50, InputMode::Basic);
    assert_eq!(cells[1].text, "Basic terminal input: press events use simulated releases.");
    assert_eq!(cells[3].text, "Waiting for a key event");
}
