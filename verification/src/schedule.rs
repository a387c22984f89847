//! Guest-side key events, and the deadlines at which a key that the terminal
//! never reports as released is released anyway.
use vstd::prelude::*;
use crate::tracker::{KeyTracker, TrackerView};

verus! {

/// How long after its last press or repeat a key counts as released when
/// the terminal sends no release, in milliseconds.
pub const SIMULATED_RELEASE_DELAY_MS: u64 = 120;

/// A physical transition of a guest key, named by the key's identifier.
#[derive(Clone, Debug, PartialEq, Eq)]
pub enum PcEvent {
    /// The key went down.
    Make(String),
    /// The key came up.
    Break(String),
}

/// One guest transition applied to a tracker.
pub open spec fn apply_pc_event_spec(t: TrackerView, e: PcEvent) -> TrackerView {
    match e {
        PcEvent::Make(id) => t.press(id@),
        PcEvent::Break(id) => t.release(id@),
    }
}

/// Guest transitions applied to a tracker in order.
pub open spec fn apply_pc_events_spec(t: TrackerView, events: Seq<PcEvent>) -> TrackerView
    decreases events.len(),
{
    if events.len() == 0 {
        t
    } else {
        apply_pc_event_spec(apply_pc_events_spec(t, events.drop_last()), events.last())
    }
}

/// Records each guest transition in `keys`: a make presses, a break releases.
pub fn apply_pc_events(events: Vec<PcEvent>, keys: &mut KeyTracker)
    ensures
        final(keys)@ == apply_pc_events_spec(old(keys)@, events@),
{
    let mut i: usize = 0;
    while i < events.len()
        invariant
            0 <= i <= events.len(),
            keys@ == apply_pc_events_spec(old(keys)@, events@.take(i as int)),
        decreases events.len() - i,
    {
        assert(events@.take(i + 1).drop_last() =~= events@.take(i as int));
        match &events[i] {
            PcEvent::Make(id) => keys.press(id.as_str()),
            PcEvent::Break(id) => keys.release(id.as_str()),
        }
        i = i + 1;
    }
    assert(events@.take(events.len() as int) =~= events@);
}

/// The identifiers whose deadline has come by `now`.
pub open spec fn expired_ids(deadlines: Map<Seq<char>, u64>, now: u64) -> Set<Seq<char>> {
    Set::new(|k: Seq<char>| deadlines.contains_key(k) && deadlines[k] <= now)
}

/// The deadlines still pending after `now`.
pub open spec fn pending_after(deadlines: Map<Seq<char>, u64>, now: u64) -> Map<
    Seq<char>,
    u64,
> {
    deadlines.restrict(Set::new(|k: Seq<char>| deadlines.contains_key(k) && deadlines[k] > now))
}

/// A tracker with every identifier of `ids` released at once.
pub open spec fn release_all(t: TrackerView, ids: Set<Seq<char>>) -> TrackerView {
    TrackerView { down: t.down.difference(ids), seen: t.seen.union(ids) }
}

/// Pending release deadlines, one per source key identifier, in milliseconds.
///
/// The entries are kept in a vector so that the due ones can be found: vstd's
/// string-keyed hash map specifies no way to visit its keys.
pub struct ReleaseSchedule {
    entries: Vec<(String, u64)>,
    deadlines: Ghost<Map<Seq<char>, u64>>,
}

impl View for ReleaseSchedule {
    type V = Map<Seq<char>, u64>;

    closed spec fn view(&self) -> Map<Seq<char>, u64> {
        self.deadlines@
    }
}

/// The entries hold exactly the map, one entry per identifier.
spec fn entries_match(entries: Seq<(String, u64)>, m: Map<Seq<char>, u64>) -> bool {
    &&& forall|i: int|
        0 <= i < entries.len() ==> m.contains_key(#[trigger] entries[i].0@) && m[entries[i].0@]
            == entries[i].1
    &&& forall|k: Seq<char>|
        m.contains_key(k) ==> exists|i: int| 0 <= i < entries.len() && #[trigger] entries[i].0@ == k
    &&& forall|i: int, j: int|
        0 <= i < j < entries.len() ==> #[trigger] entries[i].0@ != #[trigger] entries[j].0@
}

proof fn lemma_entries_match_push(
    entries: Seq<(String, u64)>,
    m: Map<Seq<char>, u64>,
    entry: (String, u64),
)
    requires
        entries_match(entries, m),
        !m.contains_key(entry.0@),
    ensures
        entries_match(entries.push(entry), m.insert(entry.0@, entry.1)),
{
    let pushed = entries.push(entry);
    let m2 = m.insert(entry.0@, entry.1);
    assert forall|k: Seq<char>| m2.contains_key(k) implies exists|i: int|
        0 <= i < pushed.len() && #[trigger] pushed[i].0@ == k by {
        if k == entry.0@ {
            assert(pushed[entries.len() as int].0@ == k);
        } else {
            let i = choose|i: int| 0 <= i < entries.len() && #[trigger] entries[i].0@ == k;
            assert(pushed[i].0@ == k);
        }
    }
    assert forall|i: int, j: int| 0 <= i < j < pushed.len() implies #[trigger] pushed[i].0@
        != #[trigger] pushed[j].0@ by {
        if j == entries.len() {
            assert(m.contains_key(entries[i].0@));
        } else {
            assert(entries[i].0@ != entries[j].0@);
        }
    }
}

impl ReleaseSchedule {
    #[verifier::type_invariant]
    spec fn inv(self) -> bool {
        entries_match(self.entries@, self.deadlines@)
    }

    /// No release pending.
    pub fn new() -> (res: ReleaseSchedule)
        ensures
            res@ == Map::<Seq<char>, u64>::empty(),
    {
        ReleaseSchedule { entries: Vec::new(), deadlines: Ghost(Map::empty()) }
    }

    /// The position of `id` among the entries, if it has one.
    fn find(entries: &Vec<(String, u64)>, id: &str) -> (res: Option<usize>)
        ensures
            match res {
                Some(i) => i < entries@.len() && entries@[i as int].0@ == id@,
                None => forall|i: int| 0 <= i < entries@.len() ==> entries@[i].0@ != id@,
            },
    {
        let mut i: usize = 0;
        while i < entries.len()
            invariant
                0 <= i <= entries@.len(),
                forall|j: int| 0 <= j < i ==> entries@[j].0@ != id@,
            decreases entries.len() - i,
        {
            if crate::text::str_eq(entries[i].0.as_str(), id) {
                return Some(i);
            }
            i = i + 1;
        }
        None
    }

    /// The pending deadline of `id`, if any.
    pub fn deadline(&self, id: &str) -> (res: Option<u64>)
        ensures
            res == (if self@.contains_key(id@) {
                Some(self@[id@])
            } else {
                None::<u64>
            }),
    {
        proof {
            use_type_invariant(self);
        }
        match Self::find(&self.entries, id) {
            Some(i) => Some(self.entries[i].1),
            None => None,
        }
    }

    /// Sets the deadline of `id`, replacing any earlier one.
    pub fn schedule(&mut self, id: &str, deadline: u64)
        ensures
            final(self)@ == old(self)@.insert(id@, deadline),
    {
        let mut taken = ReleaseSchedule::new();
        std::mem::swap(&mut taken, self);
        proof {
            use_type_invariant(&taken);
        }
        let ReleaseSchedule { entries: mut entries, deadlines: Ghost(m) } = taken;
        let ghost old_entries = entries@;
        let ghost new_m = m.insert(id@, deadline);
        match Self::find(&entries, id) {
            Some(i) => {
                entries[i] = (id.to_owned(), deadline);
                assert forall|k: Seq<char>| new_m.contains_key(k) implies exists|j: int|
                    0 <= j < entries@.len() && #[trigger] entries@[j].0@ == k by {
                    if k != id@ {
                        let j = choose|j: int| 0 <= j < old_entries.len() && #[trigger] old_entries[j].0@ == k;
                        assert(entries@[j].0@ == k);
                    } else {
                        assert(entries@[i as int].0@ == k);
                    }
                }
            },
            None => {
                entries.push((id.to_owned(), deadline));
                assert forall|k: Seq<char>| new_m.contains_key(k) implies exists|j: int|
                    0 <= j < entries@.len() && #[trigger] entries@[j].0@ == k by {
                    if k != id@ {
                        let j = choose|j: int| 0 <= j < old_entries.len() && #[trigger] old_entries[j].0@ == k;
                        assert(entries@[j].0@ == k);
                    } else {
                        assert(entries@[old_entries.len() as int].0@ == k);
                    }
                }
            },
        }
        *self = ReleaseSchedule { entries, deadlines: Ghost(new_m) };
    }

    /// Drops any deadline of `id`.
    pub fn cancel(&mut self, id: &str)
        ensures
            final(self)@ == old(self)@.remove(id@),
    {
        let mut taken = ReleaseSchedule::new();
        std::mem::swap(&mut taken, self);
        proof {
            use_type_invariant(&taken);
        }
        let ReleaseSchedule { entries: mut entries, deadlines: Ghost(m) } = taken;
        let ghost old_entries = entries@;
        let ghost new_m = m.remove(id@);
        match Self::find(&entries, id) {
            Some(i) => {
                entries.remove(i);
                assert(forall|j: int| 0 <= j < i ==> entries@[j] == old_entries[j]);
                assert(forall|j: int| i <= j < entries@.len() ==> entries@[j] == old_entries[j + 1]);
                assert forall|k: Seq<char>| new_m.contains_key(k) implies exists|j: int|
                    0 <= j < entries@.len() && #[trigger] entries@[j].0@ == k by {
                    let j = choose|j: int| 0 <= j < old_entries.len() && #[trigger] old_entries[j].0@ == k;
                    if j < i {
                        assert(entries@[j].0@ == k);
                    } else {
                        assert(j != i);
                        assert(entries@[j - 1].0@ == k);
                    }
                }
                assert forall|a: int, b: int|
                    0 <= a < b < entries@.len() implies #[trigger] entries@[a].0@
                    != #[trigger] entries@[b].0@ by {
                    let a0 = if a < i { a } else { a + 1 };
                    let b0 = if b < i { b } else { b + 1 };
                    assert(old_entries[a0].0@ != old_entries[b0].0@);
                }
            },
            None => {},
        }
        *self = ReleaseSchedule { entries, deadlines: Ghost(new_m) };
    }
}

/// Releases every source key whose deadline has come by `now`: drops its
/// deadline and shows it released in `mac_keys`. Returns the released
/// identifiers, each once, so that the guest keyboard can release what they
/// hold.
pub fn release_expired_keys(
    deadlines: &mut ReleaseSchedule,
    mac_keys: &mut KeyTracker,
    now: u64,
) -> (expired: Vec<String>)
    ensures
        final(deadlines)@ == pending_after(old(deadlines)@, now),
        final(mac_keys)@ == release_all(old(mac_keys)@, expired_ids(old(deadlines)@, now)),
        expired@.map_values(|s: String| s@).to_set() == expired_ids(old(deadlines)@, now),
        expired@.map_values(|s: String| s@).no_duplicates(),
{
    let mut taken = ReleaseSchedule::new();
    std::mem::swap(&mut taken, deadlines);
    proof {
        use_type_invariant(&taken);
    }
    let ReleaseSchedule { entries, deadlines: Ghost(m) } = taken;
    let ghost e = entries@;
    let ghost t0 = mac_keys@;
    let mut kept: Vec<(String, u64)> = Vec::new();
    let mut expired: Vec<String> = Vec::new();
    let mut i: usize = 0;
    proof {
        assert(expired@.map_values(|s: String| s@).to_set() =~= Set::empty());
        assert(release_all(t0, Set::empty()).down =~= t0.down);
        assert(release_all(t0, Set::empty()).seen =~= t0.seen);
    }
    while i < entries.len()
        invariant
            0 <= i <= entries@.len(),
            e == entries@,
            entries_match(e, m),
            entries_match(
                kept@,
                m.restrict(
                    Set::new(
                        |k: Seq<char>|
                            m.contains_key(k) && m[k] > now && exists|j: int|
                                0 <= j < i && #[trigger] e[j].0@ == k,
                    ),
                ),
            ),
            expired@.map_values(|s: String| s@).to_set() == Set::new(
                |k: Seq<char>|
                    m.contains_key(k) && m[k] <= now && exists|j: int|
                        0 <= j < i && #[trigger] e[j].0@ == k,
            ),
            expired@.map_values(|s: String| s@).no_duplicates(),
            forall|a: int|
                0 <= a < expired@.len() ==> exists|j: int|
                    0 <= j < i && #[trigger] e[j].0@ == (#[trigger] expired@[a])@,
            mac_keys@ == release_all(
                t0,
                expired@.map_values(|s: String| s@).to_set(),
            ),
        decreases entries.len() - i,
    {
        let ghost k = e[i as int].0@;
        let ghost before = expired@.map_values(|s: String| s@);
        let ghost kd = Set::new(
            |x: Seq<char>|
                m.contains_key(x) && m[x] > now && exists|j: int| 0 <= j < i && #[trigger] e[j].0@ == x,
        );
        let ghost kd2 = Set::new(
            |x: Seq<char>|
                m.contains_key(x) && m[x] > now && exists|j: int| 0 <= j < i + 1 && #[trigger] e[j].0@ == x,
        );
        let id = entries[i].0.clone();
        let d = entries[i].1;
        assert(forall|j: int| 0 <= j < i ==> e[j].0@ != k);
        if d <= now {
            mac_keys.release(id.as_str());
            expired.push(id);
            proof {
                assert(kd2 =~= kd);
                let after = expired@.map_values(|s: String| s@);
                assert(after =~= before.push(k));
                assert(!before.contains(k)) by {
                    if before.contains(k) {
                        let a = choose|a: int| 0 <= a < before.len() && before[a] == k;
                        assert(expired@[a]@ == k);
                    }
                }
                before.lemma_push_to_set_commute(k);
                assert(mac_keys@.down =~= t0.down.difference(after.to_set()));
                assert(mac_keys@.seen =~= t0.seen.union(after.to_set()));
            }
        } else {
            let ghost kept_before = kept@;
            proof {
                assert(kd2 =~= kd.insert(k));
                assert(m.restrict(kd2) =~= m.restrict(kd).insert(k, d));
                lemma_entries_match_push(kept_before, m.restrict(kd), (id, d));
            }
            kept.push((id, d));
        }
        proof {
            let ii = (i + 1) as int;
            assert(e[i as int].0@ == k);
            assert(Set::new(
                |x: Seq<char>|
                    m.contains_key(x) && m[x] <= now && exists|j: int| 0 <= j < ii && #[trigger] e[j].0@ == x,
            ) =~= expired@.map_values(|s: String| s@).to_set());
        }
        i = i + 1;
    }
    proof {
        assert(expired@.map_values(|s: String| s@).to_set() =~= expired_ids(m, now));
        assert(Set::new(
            |k: Seq<char>|
                m.contains_key(k) && m[k] > now && exists|j: int|
                    0 <= j < e.len() && #[trigger] e[j].0@ == k,
        ) =~= Set::new(|k: Seq<char>| m.contains_key(k) && m[k] > now));
    }
    *deadlines = ReleaseSchedule { entries: kept, deadlines: Ghost(pending_after(m, now)) };
    expired
}


/// After the due releases, no pending deadline has come, and the pending
/// deadlines are the earlier ones that had not.
pub proof fn law_no_due_deadline_survives(d: Map<Seq<char>, u64>, now: u64, k: Seq<char>)
    ensures
        pending_after(d, now).contains_key(k) <==> d.contains_key(k) && d[k] > now,
        pending_after(d, now).contains_key(k) ==> pending_after(d, now)[k] == d[k],
        expired_ids(d, now).contains(k) <==> d.contains_key(k) && d[k] <= now,
{
}

/// A source key released for lack of a release event shows as seen; every
/// other key keeps its state.
pub proof fn law_expired_keys_show_seen(t: TrackerView, d: Map<Seq<char>, u64>, now: u64, k: Seq<char>)
    ensures
        expired_ids(d, now).contains(k) ==> release_all(t, expired_ids(d, now)).visual(k)
            == crate::tracker::KeyVisual::Seen,
        !expired_ids(d, now).contains(k) ==> release_all(t, expired_ids(d, now)).visual(k)
            == t.visual(k),
{
}

/// A make followed by a break of the same guest key leaves it seen.
pub proof fn law_make_then_break_is_seen(t: TrackerView, id: String)
    ensures
        apply_pc_events_spec(t, seq![PcEvent::Make(id), PcEvent::Break(id)]).visual(id@)
            == crate::tracker::KeyVisual::Seen,
{
    let evs = seq![PcEvent::Make(id), PcEvent::Break(id)];
    assert(evs.drop_last() =~= seq![PcEvent::Make(id)]);
    assert(seq![PcEvent::Make(id)].drop_last() =~= Seq::<PcEvent>::empty());
}

} // verus!
