//! The tester's decisions between terminal reads: what a key event does to
//! the shown state, when held keys are released for lack of a release
//! event, and what goes to the guest keyboard.
use vstd::prelude::*;
use crate::describe::{
    describe_event, describe_event_spec, describe_unsupported, unsupported_text, KeyEventText,
    MappedKey,
};
use crate::input::{
    adapt_key, adapt_key_spec, is_quit, is_quit_spec, InputEvent, InputMode, TerminalKeyEvent,
    TerminalKeyKind, TerminalModifiers,
};
use crate::layout::{cells_view, draw, frame_cells, Cell};
use crate::schedule::{
    apply_pc_events, apply_pc_events_spec, expired_ids, pending_after, release_all,
    release_expired_keys, PcEvent, ReleaseSchedule, SIMULATED_RELEASE_DELAY_MS,
};
use crate::tracker::{KeyTracker, TrackerView};

verus! {

/// The description shown before the first key event.
pub const WAITING: &'static str = "Waiting for a key event";

/// What the front end does with a terminal key event.
#[derive(Clone, Copy, Debug, PartialEq, Eq, Structural)]
pub enum KeyAction {
    /// Ctrl-Q: leave the tester.
    Quit,
    /// The mapper has no such key; the description says so.
    Unsupported,
    /// Look up the event's source identifier and guest keys, then record it
    /// with [`Session::record_input`].
    Forward(InputEvent),
}

/// The abstract state of a [`Session`].
pub struct SessionView {
    pub mac_keys: TrackerView,
    pub xt_keys: TrackerView,
    pub deadlines: Map<Seq<char>, u64>,
    pub modifiers: TerminalModifiers,
    pub last: Seq<char>,
}

/// Everything the tester shows and the pending simulated releases.
pub struct Session {
    mac_keys: KeyTracker,
    xt_keys: KeyTracker,
    deadlines: ReleaseSchedule,
    modifiers: TerminalModifiers,
    last: String,
}

impl View for Session {
    type V = SessionView;

    closed spec fn view(&self) -> SessionView {
        SessionView {
            mac_keys: self.mac_keys@,
            xt_keys: self.xt_keys@,
            deadlines: self.deadlines@,
            modifiers: self.modifiers,
            last: self.last@,
        }
    }
}

/// Whether a host event is handed to the guest keyboard: presses and
/// releases are, repeats are not.
pub open spec fn forwards(kind: TerminalKeyKind) -> bool {
    kind != TerminalKeyKind::Repeat
}

/// The state after recording a key event with source identifier `id` at
/// `now`: the event's modifiers and description are shown; a press or a
/// repeat holds the source key and (re)arms its simulated release; a release
/// lets it go, cancels the simulated release and clears the modifiers.
pub open spec fn record_input_spec(
    s: SessionView,
    key: TerminalKeyEvent,
    description: Seq<char>,
    id: Seq<char>,
    now: u64,
) -> SessionView {
    match key.kind {
        TerminalKeyKind::Press | TerminalKeyKind::Repeat => SessionView {
            mac_keys: s.mac_keys.press(id),
            deadlines: s.deadlines.insert(id, (now + SIMULATED_RELEASE_DELAY_MS) as u64),
            modifiers: key.modifiers,
            last: description,
            ..s
        },
        TerminalKeyKind::Release => SessionView {
            mac_keys: s.mac_keys.release(id),
            deadlines: s.deadlines.remove(id),
            modifiers: TerminalModifiers {
                shift: false,
                control: false,
                alt: false,
                super_key: false,
                hyper: false,
                meta: false,
            },
            last: description,
            ..s
        },
    }
}

impl Session {
    /// Nothing pressed, nothing pending, waiting for the first event.
    pub fn new() -> (res: Session)
        ensures
            res@.mac_keys == TrackerView::empty(),
            res@.xt_keys == TrackerView::empty(),
            res@.deadlines == Map::<Seq<char>, u64>::empty(),
            res@.modifiers.is_empty_spec(),
            res@.last == WAITING@,
    {
        Session {
            mac_keys: KeyTracker::new(),
            xt_keys: KeyTracker::new(),
            deadlines: ReleaseSchedule::new(),
            modifiers: TerminalModifiers::none(),
            last: WAITING.to_owned(),
        }
    }

    pub fn mac_keys(&self) -> (res: &KeyTracker)
        ensures
            res@ == self@.mac_keys,
    {
        &self.mac_keys
    }

    pub fn xt_keys(&self) -> (res: &KeyTracker)
        ensures
            res@ == self@.xt_keys,
    {
        &self.xt_keys
    }

    pub fn deadlines(&self) -> (res: &ReleaseSchedule)
        ensures
            res@ == self@.deadlines,
    {
        &self.deadlines
    }

    pub fn modifiers(&self) -> (res: TerminalModifiers)
        ensures
            res == self@.modifiers,
    {
        self.modifiers
    }

    pub fn last(&self) -> (res: &str)
        ensures
            res@ == self@.last,
    {
        self.last.as_str()
    }

    /// Releases the source keys whose simulated release is due at `now` and
    /// returns them, each once, for the guest keyboard to release what they
    /// hold. When any was due, the shown modifiers are cleared.
    pub fn tick(&mut self, now: u64) -> (expired: Vec<String>)
        ensures
            final(self)@.deadlines == pending_after(old(self)@.deadlines, now),
            final(self)@.mac_keys == release_all(
                old(self)@.mac_keys,
                expired_ids(old(self)@.deadlines, now),
            ),
            expired@.map_values(|s: String| s@).to_set() == expired_ids(old(self)@.deadlines, now),
            expired@.map_values(|s: String| s@).no_duplicates(),
            final(self)@.modifiers == (if expired@.len() == 0 {
                old(self)@.modifiers
            } else {
                TerminalModifiers {
                    shift: false,
                    control: false,
                    alt: false,
                    super_key: false,
                    hyper: false,
                    meta: false,
                }
            }),
            expired@.len() == 0 <==> expired_ids(old(self)@.deadlines, now).is_empty(),
            final(self)@.xt_keys == old(self)@.xt_keys,
            final(self)@.last == old(self)@.last,
    {
        let expired = release_expired_keys(&mut self.deadlines, &mut self.mac_keys, now);
        proof {
            let v = expired@.map_values(|s: String| s@);
            if expired@.len() > 0 {
                assert(v.to_set().contains(v[0]));
            } else {
                assert(v.to_set() =~= Set::empty());
            }
        }
        if expired.len() > 0 {
            self.modifiers = TerminalModifiers::none();
        }
        expired
    }

    /// Records what the guest keyboard did: makes press, breaks release.
    pub fn apply_xt_events(&mut self, events: Vec<PcEvent>)
        ensures
            final(self)@.xt_keys == apply_pc_events_spec(old(self)@.xt_keys, events@),
            final(self)@.mac_keys == old(self)@.mac_keys,
            final(self)@.deadlines == old(self)@.deadlines,
            final(self)@.modifiers == old(self)@.modifiers,
            final(self)@.last == old(self)@.last,
    {
        apply_pc_events(events, &mut self.xt_keys);
    }

    /// Decides what a terminal key event calls for: Ctrl-Q quits; a key the
    /// mapper lacks is described as unsupported and goes no further; any
    /// other becomes the mapper's event.
    pub fn handle_key(&mut self, key: &TerminalKeyEvent, text: &KeyEventText) -> (res: KeyAction)
        ensures
            is_quit_spec(*key) ==> res == KeyAction::Quit && final(self)@ == old(self)@,
            !is_quit_spec(*key) ==> match adapt_key_spec(*key) {
                Some(event) => res == KeyAction::Forward(event) && final(self)@ == old(self)@,
                None => res == KeyAction::Unsupported && final(self)@ == (SessionView {
                    last: unsupported_text(*key, text.code@),
                    ..old(self)@
                }),
            },
    {
        if is_quit(key) {
            return KeyAction::Quit;
        }
        match adapt_key(key) {
            Some(event) => KeyAction::Forward(event),
            None => {
                self.last = describe_unsupported(key, text);
                KeyAction::Unsupported
            },
        }
    }

    /// Records a key event the mapper accepts, whose source key is `id` and
    /// which maps to the guest keys `mapped`, at `now` milliseconds. Returns
    /// whether the event goes on to the guest keyboard: repeats do not.
    pub fn record_input(
        &mut self,
        key: &TerminalKeyEvent,
        text: &KeyEventText,
        id: &str,
        mapped: &[MappedKey],
        now: u64,
    ) -> (forward: bool)
        requires
            now + SIMULATED_RELEASE_DELAY_MS <= u64::MAX,
        ensures
            forward == forwards(key.kind),
            final(self)@ == record_input_spec(
                old(self)@,
                *key,
                describe_event_spec(*key, text.code@, text.modifiers@, text.state@, mapped@),
                id@,
                now,
            ),
    {
        self.modifiers = key.modifiers;
        self.last = describe_event(key, text, mapped);
        match key.kind {
            TerminalKeyKind::Press => {
                self.mac_keys.press(id);
                self.deadlines.schedule(id, now + SIMULATED_RELEASE_DELAY_MS);
                true
            },
            TerminalKeyKind::Repeat => {
                self.mac_keys.press(id);
                self.deadlines.schedule(id, now + SIMULATED_RELEASE_DELAY_MS);
                false
            },
            TerminalKeyKind::Release => {
                self.deadlines.cancel(id);
                self.mac_keys.release(id);
                self.modifiers = TerminalModifiers::none();
                true
            },
        }
    }

    /// The screen for a terminal of `width` by `height`.
    pub fn frame(&self, width: u16, height: u16, mode: InputMode) -> (res: Vec<Cell>)
        ensures
            cells_view(res@) == frame_cells(
                width,
                height,
                self@.mac_keys,
                self@.xt_keys,
                self@.modifiers,
                mode,
                self@.last,
            ),
    {
        draw(width, height, &self.mac_keys, &self.xt_keys, self.modifiers, mode, self.last.as_str())
    }
}


/// A press whose release the terminal never reports is released once its
/// delay has passed: at any later tick the source key shows as seen and no
/// release of it is pending.
pub proof fn law_unreleased_press_times_out(
    s: SessionView,
    key: TerminalKeyEvent,
    description: Seq<char>,
    id: Seq<char>,
    now: u64,
    later: u64,
)
    requires
        key.kind == TerminalKeyKind::Press || key.kind == TerminalKeyKind::Repeat,
        now + SIMULATED_RELEASE_DELAY_MS <= later,
    ensures
        ({
            let s1 = record_input_spec(s, key, description, id, now);
            &&& release_all(s1.mac_keys, expired_ids(s1.deadlines, later)).visual(id)
                == crate::tracker::KeyVisual::Seen
            &&& !pending_after(s1.deadlines, later).contains_key(id)
        }),
{
    let s1 = record_input_spec(s, key, description, id, now);
    assert(expired_ids(s1.deadlines, later).contains(id));
}

/// Until its delay has passed, a pressed or repeated source key stays down.
pub proof fn law_press_held_until_delay(
    s: SessionView,
    key: TerminalKeyEvent,
    description: Seq<char>,
    id: Seq<char>,
    now: u64,
    later: u64,
)
    requires
        key.kind == TerminalKeyKind::Press || key.kind == TerminalKeyKind::Repeat,
        later < now + SIMULATED_RELEASE_DELAY_MS,
        now + SIMULATED_RELEASE_DELAY_MS <= u64::MAX,
    ensures
        ({
            let s1 = record_input_spec(s, key, description, id, now);
            &&& release_all(s1.mac_keys, expired_ids(s1.deadlines, later)).visual(id)
                == crate::tracker::KeyVisual::Down
            &&& pending_after(s1.deadlines, later).contains_key(id)
        }),
{
    let s1 = record_input_spec(s, key, description, id, now);
    assert(!expired_ids(s1.deadlines, later).contains(id));
}

/// A reported release shows the source key as seen, leaves no simulated
/// release pending for it and clears the shown modifiers.
pub proof fn law_release_cancels_pending(
    s: SessionView,
    key: TerminalKeyEvent,
    description: Seq<char>,
    id: Seq<char>,
    now: u64,
)
    requires
        key.kind == TerminalKeyKind::Release,
    ensures
        ({
            let s1 = record_input_spec(s, key, description, id, now);
            &&& s1.mac_keys.visual(id) == crate::tracker::KeyVisual::Seen
            &&& !s1.deadlines.contains_key(id)
            &&& s1.modifiers.is_empty_spec()
        }),
{
}

/// Recording an event never touches the guest side: only the guest
/// keyboard's own transitions change it.
pub proof fn law_record_leaves_guest_keys(
    s: SessionView,
    key: TerminalKeyEvent,
    description: Seq<char>,
    id: Seq<char>,
    now: u64,
)
    ensures
        record_input_spec(s, key, description, id, now).xt_keys == s.xt_keys,
{
}

} // verus!
