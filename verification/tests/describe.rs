use xt_keyboard_tester::describe::{describe_event, describe_unsupported, KeyEventText, MappedKey};
use xt_keyboard_tester::input::{
    TerminalKeyCode, TerminalKeyEvent, TerminalKeyKind, TerminalKeyState, TerminalModifiers,
};

fn event(kind: TerminalKeyKind, control: bool) -> TerminalKeyEvent {
    TerminalKeyEvent::new_with_kind(
        TerminalKeyCode::Char('a'),
        TerminalModifiers { shift: false, control, alt: false, super_key: false, hyper: false, meta: false },
        kind,
    )
}

fn text() -> KeyEventText {
    KeyEventText { code: "a".to_owned(), modifiers: "Control".to_owned(), state: "KeyEventState(0x0)".to_owned() }
}

#[test]
fn describes_mapped_events() {
    let mapped = vec![
        MappedKey { id: "L_CTRL".to_owned(), make: vec![0x1d], break_sequence: vec![0x9d] },
        MappedKey { id: "A".to_owned(), make: vec![0x1e], break_sequence: vec![0x9e] },
    ];
    assert_eq!(
        describe_event(&event(TerminalKeyKind::Press, true), &text(), &mapped),
        "Press  code=a  modifiers=Control  state=KeyEventState(0x0)  → L_CTRL=[1D]/[9D]  A=[1E]/[9E]"
    );
}

#[test]
fn describes_events_without_modifiers_or_mapping() {
    assert_eq!(
        describe_event(&event(TerminalKeyKind::Release, false), &text(), &[]),
        "Release  code=a  modifiers=none  state=KeyEventState(0x0)  → no PC mapping"
    );
}

#[test]
fn describes_unsupported_keys() {
    assert_eq!(
        describe_unsupported(&event(TerminalKeyKind::Repeat, false), &text()),
        "Repeat  code=a  → unsupported terminal key"
    );
}

fn flags(shift: bool, control: bool, alt: bool, super_key: bool, hyper: bool, meta: bool) -> TerminalKeyEvent {
    TerminalKeyEvent::new_with_kind(
        TerminalKeyCode::Char('a'),
        TerminalModifiers { shift, control, alt, super_key, hyper, meta },
        TerminalKeyKind::Press,
    )
}

#[test]
fn renders_modifiers_from_the_event() {
    let t = KeyEventText::for_event(&flags(false, false, false, false, false, false), "a".to_owned());
    assert_eq!((t.code.as_str(), t.modifiers.as_str(), t.state.as_str()), ("a", "", "KeyEventState(0x0)"));
    let t = KeyEventText::for_event(&flags(true, false, false, false, true, true), String::new());
    assert_eq!(t.modifiers, "ShiftHyperMeta");
    let t = KeyEventText::for_event(&flags(true, true, false, false, false, false), String::new());
    assert!(t.modifiers == "ShiftControl" || t.modifiers == "ShiftCtrl");
    let t = KeyEventText::for_event(&flags(false, false, true, true, false, false), String::new());
    assert!(["OptionCommand", "AltWindows", "AltSuper"].contains(&t.modifiers.as_str()));
}

#[test]
fn description_uses_rendered_modifiers() {
    let key = flags(true, false, false, false, false, false);
    let t = KeyEventText::for_event(&key, "A".to_owned());
    assert_eq!(
        describe_event(&key, &t, &[]),
        "Press  code=A  modifiers=Shift  state=KeyEventState(0x0)  → no PC mapping"
    );
}

fn with_state(keypad: bool, caps_lock: bool, num_lock: bool) -> TerminalKeyEvent {
    TerminalKeyEvent::new_with_kind_and_state(
        TerminalKeyCode::Char('7'),
        TerminalModifiers { shift: false, control: false, alt: false, super_key: false, hyper: false, meta: false },
        TerminalKeyKind::Press,
        TerminalKeyState { keypad, caps_lock, num_lock },
    )
}

#[test]
fn renders_keyboard_state_from_the_event() {
    let text = |e: &TerminalKeyEvent| KeyEventText::for_event(e, String::new()).state;
    assert_eq!(text(&with_state(false, false, false)), "KeyEventState(0x0)");
    assert_eq!(text(&with_state(true, false, false)), "KeyEventState(KEYPAD)");
    assert_eq!(text(&with_state(true, false, true)), "KeyEventState(KEYPAD | NUM_LOCK)");
    assert_eq!(text(&with_state(false, true, true)), "KeyEventState(CAPS_LOCK | NUM_LOCK)");
    assert_eq!(text(&with_state(true, true, true)), "KeyEventState(KEYPAD | CAPS_LOCK | NUM_LOCK)");
}
