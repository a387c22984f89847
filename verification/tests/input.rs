use xt_keyboard_tester::input::{
    adapt_key, is_quit, InputEvent, InputKey, InputKind, InputMode, ModifierKey, Modifiers,
    TerminalInput, TerminalKeyCode, TerminalMediaKey, TerminalKeyEvent, TerminalKeyKind, TerminalModifierKey,
    TerminalModifiers,
};

fn mods(shift: bool, control: bool, alt: bool, super_key: bool) -> TerminalModifiers {
    TerminalModifiers { shift, control, alt, super_key, hyper: false, meta: false }
}

#[test]
fn adapts_crossterm_events_without_exposing_them_to_the_mapper() {
    let terminal_event = TerminalKeyEvent::new_with_kind(
        TerminalKeyCode::Char('a'),
        mods(false, true, true, false),
        TerminalKeyKind::Press,
    );

    assert_eq!(
        adapt_key(&terminal_event),
        Some(InputEvent::new(
            InputKey::Char('a'),
            Modifiers { shift: false, control: true, alt: true, super_key: false },
            InputKind::Press,
        ))
    );
}

#[test]
fn adapts_keys_modifiers_and_kinds() {
    let ev = TerminalKeyEvent::new_with_kind(
        TerminalKeyCode::Esc,
        TerminalModifiers { shift: true, control: false, alt: false, super_key: true, hyper: true, meta: true },
        TerminalKeyKind::Release,
    );
    assert_eq!(
        adapt_key(&ev),
        Some(InputEvent::new(
            InputKey::Escape,
            Modifiers { shift: true, control: false, alt: false, super_key: true },
            InputKind::Release,
        ))
    );
    let ev = TerminalKeyEvent::new_with_kind(TerminalKeyCode::F(7), mods(false, false, false, false), TerminalKeyKind::Repeat);
    assert_eq!(adapt_key(&ev).map(|e| (e.key, e.kind)), Some((InputKey::Function(7), InputKind::Repeat)));
    let ev = TerminalKeyEvent::new_with_kind(
        TerminalKeyCode::Modifier(TerminalModifierKey::RightSuper),
        mods(false, false, false, true),
        TerminalKeyKind::Press,
    );
    assert_eq!(adapt_key(&ev).map(|e| e.key), Some(InputKey::Modifier(ModifierKey::RightSuper)));
    let ev = TerminalKeyEvent::new_with_kind(
        TerminalKeyCode::Modifier(TerminalModifierKey::LeftHyper),
        mods(false, false, false, false),
        TerminalKeyKind::Press,
    );
    assert_eq!(adapt_key(&ev).map(|e| e.key), Some(InputKey::Modifier(ModifierKey::Other)));
}

#[test]
fn keys_the_mapper_lacks_are_not_adapted() {
    for code in [
        TerminalKeyCode::Tab,
        TerminalKeyCode::BackTab,
        TerminalKeyCode::CapsLock,
        TerminalKeyCode::Pause,
        TerminalKeyCode::Menu,
        TerminalKeyCode::Media(TerminalMediaKey::Play),
    ] {
        let ev = TerminalKeyEvent::new_with_kind(code, mods(false, false, false, false), TerminalKeyKind::Press);
        assert_eq!(adapt_key(&ev), None);
    }
}

#[test]
fn ctrl_q_quits() {
    let q = |c: char, control: bool| {
        TerminalKeyEvent::new_with_kind(TerminalKeyCode::Char(c), mods(false, control, false, false), TerminalKeyKind::Press)
    };
    assert!(is_quit(&q('q', true)));
    assert!(is_quit(&q('Q', true)));
    assert!(!is_quit(&q('q', false)));
    assert!(!is_quit(&q('w', true)));
}

#[test]
fn input_mode_follows_enhancement_support() {
    assert_eq!(TerminalInput::basic().mode(), InputMode::Basic);
    assert!(!TerminalInput::basic().kitty_enabled());
    assert_eq!(TerminalInput::automatic(true).mode(), InputMode::Kitty);
    assert!(TerminalInput::automatic(true).kitty_enabled());
    assert_eq!(TerminalInput::automatic(false).mode(), InputMode::KittyUnavailable);
    assert!(!TerminalInput::automatic(false).kitty_enabled());
}
