//! The one-line description of the last terminal event shown on screen.
use vstd::prelude::*;
use crate::input::{TerminalKeyEvent, TerminalKeyKind, TerminalKeyState, TerminalModifiers};
use crossterm::event::{KeyEventState, KeyModifiers};
use crate::text::{format_hex_bytes, hex_list};

verus! {

/// A guest key that a host event maps to, with its Set 1 sequences.
#[derive(Clone, Debug, PartialEq, Eq)]
pub struct MappedKey {
    /// The guest key's identifier.
    pub id: String,
    /// The bytes sent when the key goes down.
    pub make: Vec<u8>,
    /// The bytes sent when the key comes up.
    pub break_sequence: Vec<u8>,
}

/// How the terminal itself renders the parts of a key event that the
/// description quotes.
#[derive(Clone, Debug, PartialEq, Eq)]
pub struct KeyEventText {
    /// The key, as the terminal names it.
    pub code: String,
    /// The held modifiers, as the terminal names them.
    pub modifiers: String,
    /// The extra keyboard state, as the terminal renders it.
    pub state: String,
}

/// The modifier names, one after another with no separator, in the order
/// Shift, Control, Alt, Super, Hyper, Meta, given the names this platform
/// uses for Control, Alt and Super.
pub open spec fn modifier_names_text(
    m: TerminalModifiers,
    control: Seq<char>,
    alt: Seq<char>,
    super_name: Seq<char>,
) -> Seq<char> {
    (if m.shift { "Shift"@ } else { Seq::empty() }) + (if m.control { control } else { Seq::empty() })
        + (if m.alt { alt } else { Seq::empty() }) + (if m.super_key { super_name } else { Seq::empty() })
        + (if m.hyper { "Hyper"@ } else { Seq::empty() }) + (if m.meta { "Meta"@ } else { Seq::empty() })
}

/// `text` is how the terminal renders the modifiers `m` on some platform it
/// supports: Control is "Control" on Unix and "Ctrl" on Windows; Alt is
/// "Option" on macOS and "Alt" elsewhere; Super is "Command" on macOS,
/// "Windows" on Windows and "Super" elsewhere.
pub open spec fn renders_modifiers(m: TerminalModifiers, text: Seq<char>) -> bool {
    exists|control: Seq<char>, alt: Seq<char>, super_name: Seq<char>|
        (control == "Control"@ || control == "Ctrl"@) && (alt == "Option"@ || alt == "Alt"@) && (
        super_name == "Command"@ || super_name == "Windows"@ || super_name == "Super"@)
            && text == #[trigger] modifier_names_text(m, control, alt, super_name)
}

/// crossterm's `Display` of `KeyModifiers`, on the flags of a bit set below
/// 64. Its source writes, for each set flag in declaration order, the
/// flag's name and nothing between them (the `+` it means to put between
/// names is never written, as its `first` marker is never cleared), and
/// nothing for no flag; the names of Control, Alt and Super depend on the
/// target platform, as `renders_modifiers` lists for Unix and Windows.
#[verifier::external_body]
fn display_modifiers(bits: u8) -> (res: String)
    requires
        bits < 64,
    ensures
        renders_modifiers(TerminalModifiers::from_bits_spec(bits), res@),
{
    KeyModifiers::from_bits_retain(bits).to_string()
}

/// How the terminal renders extra keyboard state for debugging: the names
/// of the set flags in the order KEYPAD, CAPS_LOCK, NUM_LOCK, separated by
/// `" | "`, or `0x0` when none is set, inside `KeyEventState(` and `)`.
pub open spec fn key_state_text(s: TerminalKeyState) -> Seq<char> {
    let names: Seq<char> = if !s.keypad && !s.caps_lock && !s.num_lock {
        "0x0"@
    } else {
        (if s.keypad { "KEYPAD"@ } else { Seq::empty() }) + (if s.keypad && (s.caps_lock
            || s.num_lock) {
            " | "@
        } else {
            Seq::empty()
        }) + (if s.caps_lock { "CAPS_LOCK"@ } else { Seq::empty() }) + (if s.caps_lock
            && s.num_lock {
            " | "@
        } else {
            Seq::empty()
        }) + (if s.num_lock { "NUM_LOCK"@ } else { Seq::empty() })
    };
    "KeyEventState("@ + names + ")"@
}

/// crossterm's `Debug` of `KeyEventState`, on the flags of a bit set below 8.
/// The derived `Debug` of the tuple struct wraps the bitflags rendering,
/// which writes `0x0` for no flag and otherwise the names of the set flags
/// in declaration order, separated by `" | "`.
#[verifier::external_body]
fn debug_key_state(bits: u8) -> (res: String)
    requires
        bits < 8,
    ensures
        res@ == key_state_text(TerminalKeyState::from_bits_spec(bits)),
{
    format!("{:?}", KeyEventState::from_bits_retain(bits))
}

pub open spec fn kind_name(kind: TerminalKeyKind) -> Seq<char> {
    match kind {
        TerminalKeyKind::Press => "Press"@,
        TerminalKeyKind::Repeat => "Repeat"@,
        TerminalKeyKind::Release => "Release"@,
    }
}

fn kind_str(kind: TerminalKeyKind) -> (res: &'static str)
    ensures
        res@ == kind_name(kind),
{
    match kind {
        TerminalKeyKind::Press => "Press",
        TerminalKeyKind::Repeat => "Repeat",
        TerminalKeyKind::Release => "Release",
    }
}

/// One guest key as `ID=[make bytes]/[break bytes]`.
pub open spec fn mapped_text(k: MappedKey) -> Seq<char> {
    k.id@ + "="@ + hex_list(k.make@) + "/"@ + hex_list(k.break_sequence@)
}

/// The guest keys described one after another, two spaces apart.
pub open spec fn mapped_list(keys: Seq<MappedKey>) -> Seq<char>
    decreases keys.len(),
{
    if keys.len() == 0 {
        Seq::empty()
    } else if keys.len() == 1 {
        mapped_text(keys[0])
    } else {
        mapped_list(keys.drop_last()) + "  "@ + mapped_text(keys.last())
    }
}

/// What the host event maps to, or that it maps to nothing.
pub open spec fn pc_text(keys: Seq<MappedKey>) -> Seq<char> {
    if keys.len() == 0 {
        "no PC mapping"@
    } else {
        mapped_list(keys)
    }
}

/// The description of a key event the mapper accepts, given the terminal's
/// renderings of its key, modifiers and state.
pub open spec fn describe_event_spec(
    key: TerminalKeyEvent,
    code: Seq<char>,
    modifiers: Seq<char>,
    state: Seq<char>,
    mapped: Seq<MappedKey>,
) -> Seq<char> {
    kind_name(key.kind) + "  code="@ + code + "  modifiers="@ + (if key.modifiers.is_empty_spec() {
        "none"@
    } else {
        modifiers
    }) + "  state="@ + state + "  → "@ + pc_text(mapped)
}

/// The description of a key event the mapper has no key for, given the
/// terminal's rendering of its key.
pub open spec fn unsupported_text(key: TerminalKeyEvent, code: Seq<char>) -> Seq<char> {
    kind_name(key.kind) + "  code="@ + code + "  → unsupported terminal key"@
}

impl KeyEventText {
    /// The texts for `key`: the terminal's renderings of its modifiers and
    /// of its keyboard state are made here from the event itself; the
    /// rendering of the key is given.
    pub fn for_event(key: &TerminalKeyEvent, code: String) -> (res: KeyEventText)
        ensures
            res.code@ == code@,
            renders_modifiers(key.modifiers, res.modifiers@),
            res.state@ == key_state_text(key.state),
    {
        let modifiers = display_modifiers(key.modifiers.bits());
        let state = debug_key_state(key.state.bits());
        KeyEventText { code, modifiers, state }
    }
}

fn describe_mapped(k: &MappedKey) -> (res: String)
    ensures
        res@ == mapped_text(*k),
{
    let mut res = k.id.clone();
    res.append("=");
    res.append(format_hex_bytes(k.make.as_slice()).as_str());
    res.append("/");
    res.append(format_hex_bytes(k.break_sequence.as_slice()).as_str());
    res
}

/// Describes a key event the mapper accepts: its kind, its key, its
/// modifiers (or `none`), its state, and the guest keys it maps to with their
/// sequences (or `no PC mapping`).
pub fn describe_event(key: &TerminalKeyEvent, text: &KeyEventText, mapped: &[MappedKey]) -> (res:
    String)
    ensures
        res@ == describe_event_spec(*key, text.code@, text.modifiers@, text.state@, mapped@),
{
    let pc = if mapped.len() == 0 {
        "no PC mapping".to_owned()
    } else {
        let mut list = String::new();
        let mut i: usize = 0;
        while i < mapped.len()
            invariant
                0 <= i <= mapped@.len(),
                list@ == mapped_list(mapped@.take(i as int)),
            decreases mapped.len() - i,
        {
            let ghost before = list@;
            if i > 0 {
                list.append("  ");
            }
            list.append(describe_mapped(&mapped[i]).as_str());
            proof {
                let t = mapped@.take(i + 1);
                assert(t.drop_last() =~= mapped@.take(i as int));
                assert(t.last() == mapped@[i as int]);
                if i == 0 {
                    assert(mapped@.take(0) =~= Seq::<MappedKey>::empty());
                    assert(list@ =~= mapped_text(mapped@[0]));
                } else {
                    assert(list@ =~= before + "  "@ + mapped_text(mapped@[i as int]));
                }
            }
            i = i + 1;
        }
        assert(mapped@.take(mapped@.len() as int) =~= mapped@);
        list
    };
    let mut res = kind_str(key.kind).to_owned();
    res.append("  code=");
    res.append(text.code.as_str());
    res.append("  modifiers=");
    if key.modifiers.is_empty() {
        res.append("none");
    } else {
        res.append(text.modifiers.as_str());
    }
    res.append("  state=");
    res.append(text.state.as_str());
    res.append("  → ");
    res.append(pc.as_str());
    assert(res@ =~= describe_event_spec(*key, text.code@, text.modifiers@, text.state@, mapped@));
    res
}

/// Describes a key event the mapper has no key for.
pub fn describe_unsupported(key: &TerminalKeyEvent, text: &KeyEventText) -> (res: String)
    ensures
        res@ == unsupported_text(*key, text.code@),
{
    let mut res = kind_str(key.kind).to_owned();
    res.append("  code=");
    res.append(text.code.as_str());
    res.append("  → unsupported terminal key");
    assert(res@ =~= unsupported_text(*key, text.code@));
    res
}


/// The name the terminal gives each kind of key event.
pub open spec fn event_kind_word(kind: TerminalKeyKind) -> Seq<char> {
    match kind {
        TerminalKeyKind::Press => "Press"@,
        TerminalKeyKind::Repeat => "Repeat"@,
        TerminalKeyKind::Release => "Release"@,
    }
}

/// A description starts with the event's own kind, press, repeat or
/// release, then the key; it ends with the guest keys the event maps to,
/// or "no PC mapping" when it maps to none; and it shows "none" for the
/// modifiers exactly when no modifier is held.
pub proof fn law_description_names_the_event(
    key: TerminalKeyEvent,
    code: Seq<char>,
    modifiers: Seq<char>,
    state: Seq<char>,
    mapped: Seq<MappedKey>,
)
    ensures
        ({
            let text = describe_event_spec(key, code, modifiers, state, mapped);
            let head = event_kind_word(key.kind) + "  code="@ + code;
            let tail = "  → "@ + (if mapped.len() == 0 { "no PC mapping"@ } else { mapped_list(mapped) });
            let shown = if key.modifiers.is_empty_spec() { "none"@ } else { modifiers };
            &&& text.len() >= head.len() + tail.len()
            &&& text.take(head.len() as int) == head
            &&& text.skip(text.len() - tail.len()) == tail
            &&& text == head + "  modifiers="@ + shown + "  state="@ + state + tail
        }),
{
    let text = describe_event_spec(key, code, modifiers, state, mapped);
    let head = event_kind_word(key.kind) + "  code="@ + code;
    let tail = "  → "@ + (if mapped.len() == 0 { "no PC mapping"@ } else { mapped_list(mapped) });
    let shown = if key.modifiers.is_empty_spec() { "none"@ } else { modifiers };
    let mid = "  modifiers="@ + shown + "  state="@ + state;
    assert(text =~= head + mid + tail);
    assert((head + mid + tail).take(head.len() as int) =~= head);
    assert((head + mid + tail).skip(text.len() - tail.len()) =~= tail);
}

/// The line for a key the mapper lacks starts with the event's own kind,
/// then the key, and says the key is unsupported.
pub proof fn law_unsupported_names_the_event(key: TerminalKeyEvent, code: Seq<char>)
    ensures
        unsupported_text(key, code) == event_kind_word(key.kind) + "  code="@ + code
            + "  → unsupported terminal key"@,
{
}

} // verus!
