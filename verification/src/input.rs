//! Terminal key events as the terminal reports them, and the normalized host
//! events that the PC keyboard mapper accepts, with the adapter between them.
use vstd::prelude::*;

verus! {

/// A modifier key as the terminal names it.
#[derive(Clone, Copy, Debug, PartialEq, Eq, Structural)]
pub enum TerminalModifierKey {
    LeftShift,
    LeftControl,
    LeftAlt,
    LeftSuper,
    LeftHyper,
    LeftMeta,
    RightShift,
    RightControl,
    RightAlt,
    RightSuper,
    RightHyper,
    RightMeta,
    IsoLevel3Shift,
    IsoLevel5Shift,
}

/// A media key as the terminal names it.
#[derive(Clone, Copy, Debug, PartialEq, Eq, Structural)]
pub enum TerminalMediaKey {
    Play,
    Pause,
    PlayPause,
    Reverse,
    Stop,
    FastForward,
    Rewind,
    TrackNext,
    TrackPrevious,
    Record,
    LowerVolume,
    RaiseVolume,
    MuteVolume,
}

/// A key as the terminal reports it.
#[derive(Clone, Copy, Debug, PartialEq, Eq, Structural)]
pub enum TerminalKeyCode {
    Backspace,
    Enter,
    Left,
    Right,
    Up,
    Down,
    Home,
    End,
    PageUp,
    PageDown,
    Tab,
    BackTab,
    Delete,
    Insert,
    F(u8),
    Char(char),
    Null,
    Esc,
    CapsLock,
    ScrollLock,
    NumLock,
    PrintScreen,
    Pause,
    Menu,
    KeypadBegin,
    Media(TerminalMediaKey),
    Modifier(TerminalModifierKey),
}

/// The modifier flags that accompany a terminal key event.
#[derive(Clone, Copy, Debug, PartialEq, Eq, Structural)]
pub struct TerminalModifiers {
    pub shift: bool,
    pub control: bool,
    pub alt: bool,
    pub super_key: bool,
    pub hyper: bool,
    pub meta: bool,
}

impl TerminalModifiers {
    /// No modifier held.
    pub fn none() -> (res: TerminalModifiers)
        ensures
            res.is_empty_spec(),
    {
        TerminalModifiers {
            shift: false,
            control: false,
            alt: false,
            super_key: false,
            hyper: false,
            meta: false,
        }
    }

    pub open spec fn is_empty_spec(self) -> bool {
        !self.shift && !self.control && !self.alt && !self.super_key && !self.hyper && !self.meta
    }

    /// The flags as the terminal's bit set: Shift 1, Control 2, Alt 4,
    /// Super 8, Hyper 16, Meta 32.
    pub open spec fn bits_spec(self) -> u8 {
        ((if self.shift { 1u8 } else { 0u8 }) + (if self.control { 2u8 } else { 0u8 }) + (
        if self.alt {
            4u8
        } else {
            0u8
        }) + (if self.super_key { 8u8 } else { 0u8 }) + (if self.hyper { 16u8 } else { 0u8 }) + (
        if self.meta {
            32u8
        } else {
            0u8
        })) as u8
    }

    /// The flags held by a bit set below 64, bit by bit.
    pub open spec fn from_bits_spec(bits: u8) -> TerminalModifiers {
        TerminalModifiers {
            shift: bits % 2 == 1,
            control: (bits / 2) % 2 == 1,
            alt: (bits / 4) % 2 == 1,
            super_key: (bits / 8) % 2 == 1,
            hyper: (bits / 16) % 2 == 1,
            meta: (bits / 32) % 2 == 1,
        }
    }

    /// The flags as the terminal's bit set.
    pub fn bits(&self) -> (res: u8)
        ensures
            res == self.bits_spec(),
            res < 64,
            TerminalModifiers::from_bits_spec(res) == *self,
    {
        let mut bits: u8 = 0;
        if self.shift {
            bits = bits + 1;
        }
        if self.control {
            bits = bits + 2;
        }
        if self.alt {
            bits = bits + 4;
        }
        if self.super_key {
            bits = bits + 8;
        }
        if self.hyper {
            bits = bits + 16;
        }
        if self.meta {
            bits = bits + 32;
        }
        bits
    }

    /// `true` when no modifier flag is set.
    pub fn is_empty(&self) -> (res: bool)
        ensures
            res == self.is_empty_spec(),
    {
        !self.shift && !self.control && !self.alt && !self.super_key && !self.hyper && !self.meta
    }
}

/// Whether the terminal reported a press, an auto-repeat or a release.
#[derive(Clone, Copy, Debug, PartialEq, Eq, Structural)]
pub enum TerminalKeyKind {
    Press,
    Repeat,
    Release,
}

/// Extra keyboard state that accompanies a terminal key event.
#[derive(Clone, Copy, Debug, PartialEq, Eq, Structural)]
pub struct TerminalKeyState {
    /// The event comes from the keypad.
    pub keypad: bool,
    /// Caps Lock was on.
    pub caps_lock: bool,
    /// Num Lock was on.
    pub num_lock: bool,
}

impl TerminalKeyState {
    /// No extra state.
    pub fn none() -> (res: TerminalKeyState)
        ensures
            !res.keypad && !res.caps_lock && !res.num_lock,
    {
        TerminalKeyState { keypad: false, caps_lock: false, num_lock: false }
    }

    /// The state held by a bit set below 8, bit by bit.
    pub open spec fn from_bits_spec(bits: u8) -> TerminalKeyState {
        TerminalKeyState {
            keypad: bits % 2 == 1,
            caps_lock: (bits / 2) % 2 == 1,
            num_lock: (bits / 4) % 2 == 1,
        }
    }

    /// The state as the terminal's bit set: keypad 1, Caps Lock 2, Num Lock 4.
    pub fn bits(&self) -> (res: u8)
        ensures
            res < 8,
            TerminalKeyState::from_bits_spec(res) == *self,
    {
        let mut bits: u8 = 0;
        if self.keypad {
            bits = bits + 1;
        }
        if self.caps_lock {
            bits = bits + 2;
        }
        if self.num_lock {
            bits = bits + 4;
        }
        bits
    }
}

/// One key event as the terminal reports it.
#[derive(Clone, Copy, Debug, PartialEq, Eq, Structural)]
pub struct TerminalKeyEvent {
    pub code: TerminalKeyCode,
    pub modifiers: TerminalModifiers,
    pub kind: TerminalKeyKind,
    pub state: TerminalKeyState,
}

impl TerminalKeyEvent {
    /// An event with no extra keyboard state.
    pub fn new_with_kind(
        code: TerminalKeyCode,
        modifiers: TerminalModifiers,
        kind: TerminalKeyKind,
    ) -> (res: TerminalKeyEvent)
        ensures
            res.code == code,
            res.modifiers == modifiers,
            res.kind == kind,
            !res.state.keypad && !res.state.caps_lock && !res.state.num_lock,
    {
        TerminalKeyEvent { code, modifiers, kind, state: TerminalKeyState::none() }
    }

    /// An event with the given extra keyboard state.
    pub fn new_with_kind_and_state(
        code: TerminalKeyCode,
        modifiers: TerminalModifiers,
        kind: TerminalKeyKind,
        state: TerminalKeyState,
    ) -> (res: TerminalKeyEvent)
        ensures
            res == (TerminalKeyEvent { code, modifiers, kind, state }),
    {
        TerminalKeyEvent { code, modifiers, kind, state }
    }
}

/// A host modifier key as the mapper names it.
#[derive(Clone, Copy, Debug, PartialEq, Eq, Structural)]
pub enum ModifierKey {
    LeftShift,
    RightShift,
    LeftControl,
    RightControl,
    LeftAlt,
    RightAlt,
    LeftSuper,
    RightSuper,
    Other,
}

/// A semantic host key as the mapper accepts it.
#[derive(Clone, Copy, Debug, PartialEq, Eq, Structural)]
pub enum InputKey {
    Backspace,
    Delete,
    Insert,
    Enter,
    Left,
    Right,
    Up,
    Down,
    Home,
    End,
    PageUp,
    PageDown,
    PrintScreen,
    ScrollLock,
    NumLock,
    KeypadBegin,
    Escape,
    Null,
    Function(u8),
    Char(char),
    Modifier(ModifierKey),
}

/// The modifier flags that the mapper accepts.
#[derive(Clone, Copy, Debug, PartialEq, Eq, Structural)]
pub struct Modifiers {
    pub shift: bool,
    pub control: bool,
    pub alt: bool,
    pub super_key: bool,
}

impl Modifiers {
    /// No modifier held.
    pub fn none() -> (res: Modifiers)
        ensures
            !res.shift && !res.control && !res.alt && !res.super_key,
    {
        Modifiers { shift: false, control: false, alt: false, super_key: false }
    }
}

/// Press, repeat or release, as the mapper accepts it.
#[derive(Clone, Copy, Debug, PartialEq, Eq, Structural)]
pub enum InputKind {
    Press,
    Repeat,
    Release,
}

/// One normalized host event for the mapper.
#[derive(Clone, Copy, Debug, PartialEq, Eq, Structural)]
pub struct InputEvent {
    pub key: InputKey,
    pub modifiers: Modifiers,
    pub kind: InputKind,
}

impl InputEvent {
    pub fn new(key: InputKey, modifiers: Modifiers, kind: InputKind) -> (res: InputEvent)
        ensures
            res == (InputEvent { key, modifiers, kind }),
    {
        InputEvent { key, modifiers, kind }
    }
}

/// Ctrl-Q (either case) ends the tester.
pub open spec fn is_quit_spec(key: TerminalKeyEvent) -> bool {
    (key.code == TerminalKeyCode::Char('q') || key.code == TerminalKeyCode::Char('Q'))
        && key.modifiers.control
}

/// `true` for Ctrl-Q or Ctrl-Shift-Q.
pub fn is_quit(key: &TerminalKeyEvent) -> (res: bool)
    ensures
        res == is_quit_spec(*key),
{
    let is_q = match key.code {
        TerminalKeyCode::Char(c) => c == 'q' || c == 'Q',
        _ => false,
    };
    is_q && key.modifiers.control
}

/// The mapper's name for a terminal modifier key.
pub open spec fn adapted_modifier_key(m: TerminalModifierKey) -> ModifierKey {
    match m {
        TerminalModifierKey::LeftShift => ModifierKey::LeftShift,
        TerminalModifierKey::RightShift => ModifierKey::RightShift,
        TerminalModifierKey::LeftControl => ModifierKey::LeftControl,
        TerminalModifierKey::RightControl => ModifierKey::RightControl,
        TerminalModifierKey::LeftAlt => ModifierKey::LeftAlt,
        TerminalModifierKey::RightAlt => ModifierKey::RightAlt,
        TerminalModifierKey::LeftSuper => ModifierKey::LeftSuper,
        TerminalModifierKey::RightSuper => ModifierKey::RightSuper,
        _ => ModifierKey::Other,
    }
}

/// The mapper's key for a terminal key, or `None` for keys the mapper does
/// not accept (Tab, Back Tab, Caps Lock, Pause, Menu and media keys).
pub open spec fn adapted_key(code: TerminalKeyCode) -> Option<InputKey> {
    match code {
        TerminalKeyCode::Backspace => Some(InputKey::Backspace),
        TerminalKeyCode::Delete => Some(InputKey::Delete),
        TerminalKeyCode::Insert => Some(InputKey::Insert),
        TerminalKeyCode::Enter => Some(InputKey::Enter),
        TerminalKeyCode::Left => Some(InputKey::Left),
        TerminalKeyCode::Right => Some(InputKey::Right),
        TerminalKeyCode::Up => Some(InputKey::Up),
        TerminalKeyCode::Down => Some(InputKey::Down),
        TerminalKeyCode::Home => Some(InputKey::Home),
        TerminalKeyCode::End => Some(InputKey::End),
        TerminalKeyCode::PageUp => Some(InputKey::PageUp),
        TerminalKeyCode::PageDown => Some(InputKey::PageDown),
        TerminalKeyCode::PrintScreen => Some(InputKey::PrintScreen),
        TerminalKeyCode::ScrollLock => Some(InputKey::ScrollLock),
        TerminalKeyCode::NumLock => Some(InputKey::NumLock),
        TerminalKeyCode::KeypadBegin => Some(InputKey::KeypadBegin),
        TerminalKeyCode::Esc => Some(InputKey::Escape),
        TerminalKeyCode::Null => Some(InputKey::Null),
        TerminalKeyCode::F(n) => Some(InputKey::Function(n)),
        TerminalKeyCode::Char(c) => Some(InputKey::Char(c)),
        TerminalKeyCode::Modifier(m) => Some(InputKey::Modifier(adapted_modifier_key(m))),
        _ => None,
    }
}

/// The mapper's flags: Shift, Control, Alt and Super carry over; Hyper and
/// Meta are dropped.
pub open spec fn adapted_modifiers(m: TerminalModifiers) -> Modifiers {
    Modifiers { shift: m.shift, control: m.control, alt: m.alt, super_key: m.super_key }
}

pub open spec fn adapted_kind(k: TerminalKeyKind) -> InputKind {
    match k {
        TerminalKeyKind::Press => InputKind::Press,
        TerminalKeyKind::Repeat => InputKind::Repeat,
        TerminalKeyKind::Release => InputKind::Release,
    }
}

/// The host event for a terminal event, when the mapper accepts its key.
pub open spec fn adapt_key_spec(key: TerminalKeyEvent) -> Option<InputEvent> {
    match adapted_key(key.code) {
        Some(k) => Some(
            InputEvent {
                key: k,
                modifiers: adapted_modifiers(key.modifiers),
                kind: adapted_kind(key.kind),
            },
        ),
        None => None,
    }
}

fn adapt_modifier_key(m: TerminalModifierKey) -> (res: ModifierKey)
    ensures
        res == adapted_modifier_key(m),
{
    match m {
        TerminalModifierKey::LeftShift => ModifierKey::LeftShift,
        TerminalModifierKey::RightShift => ModifierKey::RightShift,
        TerminalModifierKey::LeftControl => ModifierKey::LeftControl,
        TerminalModifierKey::RightControl => ModifierKey::RightControl,
        TerminalModifierKey::LeftAlt => ModifierKey::LeftAlt,
        TerminalModifierKey::RightAlt => ModifierKey::RightAlt,
        TerminalModifierKey::LeftSuper => ModifierKey::LeftSuper,
        TerminalModifierKey::RightSuper => ModifierKey::RightSuper,
        _ => ModifierKey::Other,
    }
}

/// Turns a terminal key event into the transport-neutral event the mapper
/// accepts, or `None` when the mapper has no such key.
pub fn adapt_key(key: &TerminalKeyEvent) -> (res: Option<InputEvent>)
    ensures
        res == adapt_key_spec(*key),
{
    let input_key = match key.code {
        TerminalKeyCode::Backspace => InputKey::Backspace,
        TerminalKeyCode::Delete => InputKey::Delete,
        TerminalKeyCode::Insert => InputKey::Insert,
        TerminalKeyCode::Enter => InputKey::Enter,
        TerminalKeyCode::Left => InputKey::Left,
        TerminalKeyCode::Right => InputKey::Right,
        TerminalKeyCode::Up => InputKey::Up,
        TerminalKeyCode::Down => InputKey::Down,
        TerminalKeyCode::Home => InputKey::Home,
        TerminalKeyCode::End => InputKey::End,
        TerminalKeyCode::PageUp => InputKey::PageUp,
        TerminalKeyCode::PageDown => InputKey::PageDown,
        TerminalKeyCode::PrintScreen => InputKey::PrintScreen,
        TerminalKeyCode::ScrollLock => InputKey::ScrollLock,
        TerminalKeyCode::NumLock => InputKey::NumLock,
        TerminalKeyCode::KeypadBegin => InputKey::KeypadBegin,
        TerminalKeyCode::Esc => InputKey::Escape,
        TerminalKeyCode::Null => InputKey::Null,
        TerminalKeyCode::F(number) => InputKey::Function(number),
        TerminalKeyCode::Char(character) => InputKey::Char(character),
        TerminalKeyCode::Modifier(modifier) => InputKey::Modifier(adapt_modifier_key(modifier)),
        _ => return None,
    };
    let mut modifiers = Modifiers::none();
    if key.modifiers.shift {
        modifiers.shift = true;
    }
    if key.modifiers.control {
        modifiers.control = true;
    }
    if key.modifiers.alt {
        modifiers.alt = true;
    }
    if key.modifiers.super_key {
        modifiers.super_key = true;
    }
    let kind = match key.kind {
        TerminalKeyKind::Press => InputKind::Press,
        TerminalKeyKind::Repeat => InputKind::Repeat,
        TerminalKeyKind::Release => InputKind::Release,
    };
    Some(InputEvent::new(input_key, modifiers, kind))
}

/// `e` is accepted as a host event of key `k` that keeps the event's Shift,
/// Control, Alt and Super flags and its press, repeat or release kind.
pub open spec fn adapted_to(e: TerminalKeyEvent, k: InputKey) -> bool {
    &&& adapt_key_spec(e) is Some
    &&& adapt_key_spec(e).unwrap().key == k
    &&& adapt_key_spec(e).unwrap().modifiers.shift == e.modifiers.shift
    &&& adapt_key_spec(e).unwrap().modifiers.control == e.modifiers.control
    &&& adapt_key_spec(e).unwrap().modifiers.alt == e.modifiers.alt
    &&& adapt_key_spec(e).unwrap().modifiers.super_key == e.modifiers.super_key
    &&& (e.kind == TerminalKeyKind::Press <==> adapt_key_spec(e).unwrap().kind == InputKind::Press)
    &&& (e.kind == TerminalKeyKind::Repeat <==> adapt_key_spec(e).unwrap().kind == InputKind::Repeat)
    &&& (e.kind == TerminalKeyKind::Release <==> adapt_key_spec(e).unwrap().kind
        == InputKind::Release)
}

/// Every terminal key the mapper has is handed on as the host key of the
/// same name, with the event's modifier flags and kind; the modifier keys
/// the mapper has no name for become its "other" modifier; Tab, Back Tab,
/// Caps Lock, Pause, Menu and the media keys are not handed on.
pub proof fn law_adapt_key_names_the_same_key(e: TerminalKeyEvent)
    ensures
        e.code == TerminalKeyCode::Backspace ==> adapted_to(e, InputKey::Backspace),
        e.code == TerminalKeyCode::Delete ==> adapted_to(e, InputKey::Delete),
        e.code == TerminalKeyCode::Insert ==> adapted_to(e, InputKey::Insert),
        e.code == TerminalKeyCode::Enter ==> adapted_to(e, InputKey::Enter),
        e.code == TerminalKeyCode::Left ==> adapted_to(e, InputKey::Left),
        e.code == TerminalKeyCode::Right ==> adapted_to(e, InputKey::Right),
        e.code == TerminalKeyCode::Up ==> adapted_to(e, InputKey::Up),
        e.code == TerminalKeyCode::Down ==> adapted_to(e, InputKey::Down),
        e.code == TerminalKeyCode::Home ==> adapted_to(e, InputKey::Home),
        e.code == TerminalKeyCode::End ==> adapted_to(e, InputKey::End),
        e.code == TerminalKeyCode::PageUp ==> adapted_to(e, InputKey::PageUp),
        e.code == TerminalKeyCode::PageDown ==> adapted_to(e, InputKey::PageDown),
        e.code == TerminalKeyCode::PrintScreen ==> adapted_to(e, InputKey::PrintScreen),
        e.code == TerminalKeyCode::ScrollLock ==> adapted_to(e, InputKey::ScrollLock),
        e.code == TerminalKeyCode::NumLock ==> adapted_to(e, InputKey::NumLock),
        e.code == TerminalKeyCode::KeypadBegin ==> adapted_to(e, InputKey::KeypadBegin),
        e.code == TerminalKeyCode::Esc ==> adapted_to(e, InputKey::Escape),
        e.code == TerminalKeyCode::Null ==> adapted_to(e, InputKey::Null),
        forall|n: u8| e.code == TerminalKeyCode::F(n) ==> adapted_to(e, InputKey::Function(n)),
        forall|c: char| e.code == TerminalKeyCode::Char(c) ==> adapted_to(e, InputKey::Char(c)),
        e.code == TerminalKeyCode::Modifier(TerminalModifierKey::LeftShift) ==> adapted_to(
            e,
            InputKey::Modifier(ModifierKey::LeftShift),
        ),
        e.code == TerminalKeyCode::Modifier(TerminalModifierKey::RightShift) ==> adapted_to(
            e,
            InputKey::Modifier(ModifierKey::RightShift),
        ),
        e.code == TerminalKeyCode::Modifier(TerminalModifierKey::LeftControl) ==> adapted_to(
            e,
            InputKey::Modifier(ModifierKey::LeftControl),
        ),
        e.code == TerminalKeyCode::Modifier(TerminalModifierKey::RightControl) ==> adapted_to(
            e,
            InputKey::Modifier(ModifierKey::RightControl),
        ),
        e.code == TerminalKeyCode::Modifier(TerminalModifierKey::LeftAlt) ==> adapted_to(
            e,
            InputKey::Modifier(ModifierKey::LeftAlt),
        ),
        e.code == TerminalKeyCode::Modifier(TerminalModifierKey::RightAlt) ==> adapted_to(
            e,
            InputKey::Modifier(ModifierKey::RightAlt),
        ),
        e.code == TerminalKeyCode::Modifier(TerminalModifierKey::LeftSuper) ==> adapted_to(
            e,
            InputKey::Modifier(ModifierKey::LeftSuper),
        ),
        e.code == TerminalKeyCode::Modifier(TerminalModifierKey::RightSuper) ==> adapted_to(
            e,
            InputKey::Modifier(ModifierKey::RightSuper),
        ),
        e.code == TerminalKeyCode::Modifier(TerminalModifierKey::LeftHyper) ==> adapted_to(
            e,
            InputKey::Modifier(ModifierKey::Other),
        ),
        e.code == TerminalKeyCode::Modifier(TerminalModifierKey::LeftMeta) ==> adapted_to(
            e,
            InputKey::Modifier(ModifierKey::Other),
        ),
        e.code == TerminalKeyCode::Modifier(TerminalModifierKey::RightHyper) ==> adapted_to(
            e,
            InputKey::Modifier(ModifierKey::Other),
        ),
        e.code == TerminalKeyCode::Modifier(TerminalModifierKey::RightMeta) ==> adapted_to(
            e,
            InputKey::Modifier(ModifierKey::Other),
        ),
        e.code == TerminalKeyCode::Modifier(TerminalModifierKey::IsoLevel3Shift) ==> adapted_to(
            e,
            InputKey::Modifier(ModifierKey::Other),
        ),
        e.code == TerminalKeyCode::Modifier(TerminalModifierKey::IsoLevel5Shift) ==> adapted_to(
            e,
            InputKey::Modifier(ModifierKey::Other),
        ),
        e.code == TerminalKeyCode::Tab ==> adapt_key_spec(e) is None,
        e.code == TerminalKeyCode::BackTab ==> adapt_key_spec(e) is None,
        e.code == TerminalKeyCode::CapsLock ==> adapt_key_spec(e) is None,
        e.code == TerminalKeyCode::Pause ==> adapt_key_spec(e) is None,
        e.code == TerminalKeyCode::Menu ==> adapt_key_spec(e) is None,
        forall|k: TerminalMediaKey| e.code == TerminalKeyCode::Media(k) ==> adapt_key_spec(e) is None,
{
}

/// A set of modifier flags is empty exactly when its bit set is zero, and
/// each flag reads back from its own bit.
pub proof fn law_modifier_bits_round_trip(m: TerminalModifiers)
    ensures
        m.is_empty_spec() <==> m.bits_spec() == 0,
        m.bits_spec() < 64,
        TerminalModifiers::from_bits_spec(m.bits_spec()) == m,
{
}

/// Only Ctrl-Q quits: an event quits exactly when its key is `q` or `Q` and
/// Control is held, whatever else is held.
pub proof fn law_only_ctrl_q_quits(e: TerminalKeyEvent)
    ensures
        is_quit_spec(e) ==> e.modifiers.control,
        is_quit_spec(e) ==> e.code == TerminalKeyCode::Char('q') || e.code == TerminalKeyCode::Char('Q'),
        (e.code == TerminalKeyCode::Char('q') || e.code == TerminalKeyCode::Char('Q'))
            && e.modifiers.control ==> is_quit_spec(e),
{
}

/// How terminal input is being read.
#[derive(Clone, Copy, Debug, PartialEq, Eq, Structural)]
pub enum InputMode {
    /// Plain terminal input, chosen on the command line.
    Basic,
    /// The kitty keyboard protocol is active.
    Kitty,
    /// The kitty protocol was asked for but the terminal lacks it.
    KittyUnavailable,
}

/// What the terminal adapter decided about keyboard enhancement.
pub struct TerminalInput {
    mode: InputMode,
    kitty_enabled: bool,
}

impl TerminalInput {
    pub closed spec fn mode_spec(&self) -> InputMode {
        self.mode
    }

    pub closed spec fn kitty_enabled_spec(&self) -> bool {
        self.kitty_enabled
    }

    /// Plain input: no enhancement is pushed.
    pub fn basic() -> (res: TerminalInput)
        ensures
            res.mode_spec() == InputMode::Basic,
            !res.kitty_enabled_spec(),
    {
        TerminalInput { mode: InputMode::Basic, kitty_enabled: false }
    }

    /// Automatic choice: the kitty protocol when the terminal supports it,
    /// otherwise basic input reported as the protocol being unavailable.
    pub fn automatic(enhancement_supported: bool) -> (res: TerminalInput)
        ensures
            res.kitty_enabled_spec() == enhancement_supported,
            res.mode_spec() == (if enhancement_supported {
                InputMode::Kitty
            } else {
                InputMode::KittyUnavailable
            }),
    {
        TerminalInput {
            mode: if enhancement_supported {
                InputMode::Kitty
            } else {
                InputMode::KittyUnavailable
            },
            kitty_enabled: enhancement_supported,
        }
    }

    pub fn mode(&self) -> (res: InputMode)
        ensures
            res == self.mode_spec(),
    {
        self.mode
    }

    /// Whether the enhancement flags were pushed and must be popped again.
    pub fn kitty_enabled(&self) -> (res: bool)
        ensures
            res == self.kitty_enabled_spec(),
    {
        self.kitty_enabled
    }
}

} // verus!
