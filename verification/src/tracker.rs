//! Per-key display state: never pressed, seen (pressed before, now up), or
//! down now.
use vstd::prelude::*;
use vstd::hash_set::StringHashSet;

verus! {

/// What a key on screen shows.
#[derive(Clone, Copy, Debug, PartialEq, Eq, Structural)]
pub enum KeyVisual {
    /// The key was never pressed or released.
    Never,
    /// The key has been pressed and is up now.
    Seen,
    /// The key is held down now.
    Down,
}

/// The abstract state of a [`KeyTracker`]: the identifiers held down and
/// the identifiers ever pressed or released.
pub struct TrackerView {
    pub down: Set<Seq<char>>,
    pub seen: Set<Seq<char>>,
}

impl TrackerView {
    pub open spec fn empty() -> TrackerView {
        TrackerView { down: Set::empty(), seen: Set::empty() }
    }

    /// Pressing marks the key as seen and as down.
    pub open spec fn press(self, id: Seq<char>) -> TrackerView {
        TrackerView { down: self.down.insert(id), seen: self.seen.insert(id) }
    }

    /// Releasing marks the key as seen and no longer down.
    pub open spec fn release(self, id: Seq<char>) -> TrackerView {
        TrackerView { down: self.down.remove(id), seen: self.seen.insert(id) }
    }

    pub open spec fn visual(self, id: Seq<char>) -> KeyVisual {
        if self.down.contains(id) {
            KeyVisual::Down
        } else if self.seen.contains(id) {
            KeyVisual::Seen
        } else {
            KeyVisual::Never
        }
    }

    /// Every key that is down has been seen.
    pub open spec fn wf(self) -> bool {
        self.down.subset_of(self.seen)
    }
}

/// The keys held down now and the keys ever seen, by identifier.
pub struct KeyTracker {
    down: StringHashSet,
    seen: StringHashSet,
}

impl View for KeyTracker {
    type V = TrackerView;

    closed spec fn view(&self) -> TrackerView {
        TrackerView { down: self.down@, seen: self.seen@ }
    }
}

impl KeyTracker {
    /// A tracker in which every key shows as never pressed.
    pub fn new() -> (res: KeyTracker)
        ensures
            res@ == TrackerView::empty(),
    {
        KeyTracker { down: StringHashSet::new(), seen: StringHashSet::new() }
    }

    /// Records a press (or a repeat) of `id`.
    pub fn press(&mut self, id: &str)
        ensures
            final(self)@ == old(self)@.press(id@),
    {
        self.seen.insert(id.to_owned());
        self.down.insert(id.to_owned());
    }

    /// Records a release of `id`.
    pub fn release(&mut self, id: &str)
        ensures
            final(self)@ == old(self)@.release(id@),
    {
        self.seen.insert(id.to_owned());
        self.down.remove(id);
    }

    /// What the key `id` shows now.
    pub fn visual(&self, id: &str) -> (res: KeyVisual)
        ensures
            res == self@.visual(id@),
    {
        if self.down.contains(id) {
            KeyVisual::Down
        } else if self.seen.contains(id) {
            KeyVisual::Seen
        } else {
            KeyVisual::Never
        }
    }
}

impl Default for KeyTracker {
    fn default() -> (res: KeyTracker)
        ensures
            res@ == TrackerView::empty(),
    {
        KeyTracker::new()
    }
}

/// The strongest state among several identifiers that share one key cap:
/// down if any is down, else seen if any was seen, else never.
pub open spec fn strongest_visual(t: TrackerView, ids: Seq<Seq<char>>) -> KeyVisual {
    if exists|i: int| 0 <= i < ids.len() && t.visual(#[trigger] ids[i]) == KeyVisual::Down {
        KeyVisual::Down
    } else if exists|i: int| 0 <= i < ids.len() && t.visual(#[trigger] ids[i]) == KeyVisual::Seen {
        KeyVisual::Seen
    } else {
        KeyVisual::Never
    }
}

pub open spec fn str_views(ids: Seq<&str>) -> Seq<Seq<char>> {
    ids.map_values(|s: &str| s@)
}

/// The state of a key cap that stands for several identifiers.
pub fn mac_visual_for_ids(keys: &KeyTracker, ids: &[&str]) -> (res: KeyVisual)
    ensures
        res == strongest_visual(keys@, str_views(ids@)),
{
    let ghost views = str_views(ids@);
    let mut visual = KeyVisual::Never;
    let mut i: usize = 0;
    while i < ids.len()
        invariant
            0 <= i <= ids.len(),
            views == str_views(ids@),
            views.len() == ids@.len(),
            forall|j: int| 0 <= j < i ==> keys@.visual(#[trigger] views[j]) != KeyVisual::Down,
            visual == KeyVisual::Seen <==> exists|j: int|
                0 <= j < i && keys@.visual(#[trigger] views[j]) == KeyVisual::Seen,
            visual != KeyVisual::Down,
        decreases ids.len() - i,
    {
        let v = keys.visual(ids[i]);
        assert(views[i as int] == ids@[i as int]@);
        match v {
            KeyVisual::Down => {
                assert(keys@.visual(views[i as int]) == KeyVisual::Down);
                return KeyVisual::Down;
            },
            KeyVisual::Seen => {
                visual = KeyVisual::Seen;
            },
            KeyVisual::Never => {},
        }
        i = i + 1;
    }
    visual
}

/// A key just pressed shows as down.
pub proof fn law_press_shows_down(t: TrackerView, id: Seq<char>)
    ensures
        t.press(id).visual(id) == KeyVisual::Down,
{
}

/// A key just released shows as seen, whatever it showed before.
pub proof fn law_release_shows_seen(t: TrackerView, id: Seq<char>)
    ensures
        t.release(id).visual(id) == KeyVisual::Seen,
{
}

/// Pressing then releasing a key leaves it seen.
pub proof fn law_press_then_release_is_seen(t: TrackerView, id: Seq<char>)
    ensures
        t.press(id).release(id).visual(id) == KeyVisual::Seen,
{
}

/// Pressing or releasing one key changes no other key's state.
pub proof fn law_other_keys_unchanged(t: TrackerView, id: Seq<char>, other: Seq<char>)
    requires
        id != other,
    ensures
        t.press(id).visual(other) == t.visual(other),
        t.release(id).visual(other) == t.visual(other),
{
}

/// A key that has been pressed or released never goes back to never pressed.
pub proof fn law_seen_is_permanent(t: TrackerView, id: Seq<char>, key: Seq<char>)
    requires
        t.visual(key) != KeyVisual::Never,
    ensures
        t.press(id).visual(key) != KeyVisual::Never,
        t.release(id).visual(key) != KeyVisual::Never,
{
}

/// Pressing and releasing keep every held key among the seen keys.
pub proof fn law_down_keys_are_seen(t: TrackerView, id: Seq<char>)
    requires
        t.wf(),
    ensures
        TrackerView::empty().wf(),
        t.press(id).wf(),
        t.release(id).wf(),
{
}

/// Repeating a press or a release changes nothing more.
pub proof fn law_press_and_release_idempotent(t: TrackerView, id: Seq<char>)
    ensures
        t.press(id).press(id) == t.press(id),
        t.release(id).release(id) == t.release(id),
{
    assert(t.press(id).press(id).down =~= t.press(id).down);
    assert(t.press(id).press(id).seen =~= t.press(id).seen);
    assert(t.release(id).release(id).down =~= t.release(id).down);
    assert(t.release(id).release(id).seen =~= t.release(id).seen);
}


/// The tracker after a run of calls from an empty one: `(true, id)` is a
/// press of `id`, `(false, id)` a release.
pub open spec fn replay(calls: Seq<(bool, Seq<char>)>) -> TrackerView
    decreases calls.len(),
{
    if calls.len() == 0 {
        TrackerView::empty()
    } else {
        let t = replay(calls.drop_last());
        if calls.last().0 {
            t.press(calls.last().1)
        } else {
            t.release(calls.last().1)
        }
    }
}

/// Whether the last call on `id` was a press, or `None` when no call was on
/// `id`.
pub open spec fn last_call_on(calls: Seq<(bool, Seq<char>)>, id: Seq<char>) -> Option<bool>
    decreases calls.len(),
{
    if calls.len() == 0 {
        None
    } else if calls.last().1 == id {
        Some(calls.last().0)
    } else {
        last_call_on(calls.drop_last(), id)
    }
}

/// After any run of presses and releases from an empty tracker, a key shows
/// never pressed when no call was on it, down when the last call on it was a
/// press, and seen when the last call on it was a release; calls on other
/// keys do not matter.
pub proof fn law_visual_follows_last_call(calls: Seq<(bool, Seq<char>)>, id: Seq<char>)
    ensures
        replay(calls).visual(id) == (match last_call_on(calls, id) {
            None => KeyVisual::Never,
            Some(true) => KeyVisual::Down,
            Some(false) => KeyVisual::Seen,
        }),
    decreases calls.len(),
{
    if calls.len() > 0 {
        law_visual_follows_last_call(calls.drop_last(), id);
    }
}

} // verus!
