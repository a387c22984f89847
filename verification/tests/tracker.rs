use xt_keyboard_tester::schedule::{apply_pc_events, release_expired_keys, PcEvent, ReleaseSchedule};
use xt_keyboard_tester::tracker::{mac_visual_for_ids, KeyTracker, KeyVisual};

#[test]
fn tracks_never_down_and_released_key_states() {
    let mut keys = KeyTracker::default();

    assert_eq!(keys.visual("A"), KeyVisual::Never);
    keys.press("A");
    assert_eq!(keys.visual("A"), KeyVisual::Down);
    keys.release("A");
    assert_eq!(keys.visual("A"), KeyVisual::Seen);
}

#[test]
fn releases_pressed_keys_when_a_terminal_release_is_missing() {
    // Command+Return maps to the guest's keypad Insert. The guest keyboard's
    // make and, on release of the source, its break come from the mapper,
    // which is not part of this crate; they are written out here, so the
    // last assertion checks how they are applied, not that the mapper
    // produces them.
    let mut mac_keys = KeyTracker::default();
    let mut xt_keys = KeyTracker::default();
    let mut deadlines = ReleaseSchedule::new();

    mac_keys.press("RETURN");
    apply_pc_events(vec![PcEvent::Make("KP_INS".to_owned())], &mut xt_keys);
    deadlines.schedule("RETURN", 1000);

    let expired = release_expired_keys(&mut deadlines, &mut mac_keys, 1001);
    assert!(!expired.is_empty());
    assert_eq!(expired, vec!["RETURN".to_owned()]);
    apply_pc_events(vec![PcEvent::Break("KP_INS".to_owned())], &mut xt_keys);
    assert_eq!(mac_keys.visual("RETURN"), KeyVisual::Seen);
    assert_eq!(xt_keys.visual("KP_INS"), KeyVisual::Seen);
}

#[test]
fn press_and_release_touch_only_their_key() {
    let mut keys = KeyTracker::new();
    keys.press("A");
    keys.press("B");
    keys.release("A");
    assert_eq!(keys.visual("A"), KeyVisual::Seen);
    assert_eq!(keys.visual("B"), KeyVisual::Down);
    assert_eq!(keys.visual("C"), KeyVisual::Never);
    keys.press("A");
    keys.press("A");
    assert_eq!(keys.visual("A"), KeyVisual::Down);
    keys.release("A");
    keys.release("A");
    assert_eq!(keys.visual("A"), KeyVisual::Seen);
}

#[test]
fn release_without_press_shows_seen() {
    let mut keys = KeyTracker::new();
    keys.release("Q");
    assert_eq!(keys.visual("Q"), KeyVisual::Seen);
}

#[test]
fn shared_key_cap_shows_strongest_state() {
    let mut keys = KeyTracker::new();
    assert_eq!(mac_visual_for_ids(&keys, &["LEFT", "HOME"]), KeyVisual::Never);
    keys.release("HOME");
    assert_eq!(mac_visual_for_ids(&keys, &["LEFT", "HOME"]), KeyVisual::Seen);
    keys.press("LEFT");
    assert_eq!(mac_visual_for_ids(&keys, &["LEFT", "HOME"]), KeyVisual::Down);
    assert_eq!(mac_visual_for_ids(&keys, &[]), KeyVisual::Never);
}

#[test]
fn make_then_break_leaves_guest_key_seen() {
    let mut keys = KeyTracker::new();
    apply_pc_events(
        vec![PcEvent::Make("ENTER".to_owned()), PcEvent::Break("ENTER".to_owned())],
        &mut keys,
    );
    assert_eq!(keys.visual("ENTER"), KeyVisual::Seen);
    apply_pc_events(vec![PcEvent::Make("L_SHIFT".to_owned())], &mut keys);
    assert_eq!(keys.visual("L_SHIFT"), KeyVisual::Down);
    apply_pc_events(vec![], &mut keys);
    assert_eq!(keys.visual("L_SHIFT"), KeyVisual::Down);
}

#[test]
fn visual_follows_the_last_call_on_each_key() {
    let mut keys = KeyTracker::new();
    keys.press("A");
    keys.release("B");
    keys.press("C");
    keys.release("A");
    keys.press("B");
    assert_eq!(keys.visual("A"), KeyVisual::Seen);
    assert_eq!(keys.visual("B"), KeyVisual::Down);
    assert_eq!(keys.visual("C"), KeyVisual::Down);
    assert_eq!(keys.visual("D"), KeyVisual::Never);
}
