use xt_keyboard_tester::schedule::{release_expired_keys, ReleaseSchedule, SIMULATED_RELEASE_DELAY_MS};
use xt_keyboard_tester::tracker::{KeyTracker, KeyVisual};

#[test]
fn delay_is_one_hundred_twenty_milliseconds() {
    assert_eq!(SIMULATED_RELEASE_DELAY_MS, 120);
}

#[test]
fn schedule_replaces_and_cancel_drops() {
    let mut d = ReleaseSchedule::new();
    assert_eq!(d.deadline("A"), None);
    d.schedule("A", 10);
    d.schedule("B", 20);
    d.schedule("A", 30);
    assert_eq!(d.deadline("A"), Some(30));
    assert_eq!(d.deadline("B"), Some(20));
    d.cancel("A");
    assert_eq!(d.deadline("A"), None);
    assert_eq!(d.deadline("B"), Some(20));
    d.cancel("missing");
    assert_eq!(d.deadline("B"), Some(20));
}

#[test]
fn only_due_keys_are_released() {
    let mut d = ReleaseSchedule::new();
    let mut keys = KeyTracker::new();
    keys.press("A");
    keys.press("B");
    keys.press("C");
    d.schedule("A", 100);
    d.schedule("B", 200);
    d.schedule("C", 150);

    let mut expired = release_expired_keys(&mut d, &mut keys, 150);
    expired.sort();
    assert_eq!(expired, vec!["A".to_owned(), "C".to_owned()]);
    assert_eq!(keys.visual("A"), KeyVisual::Seen);
    assert_eq!(keys.visual("B"), KeyVisual::Down);
    assert_eq!(keys.visual("C"), KeyVisual::Seen);
    assert_eq!(d.deadline("A"), None);
    assert_eq!(d.deadline("B"), Some(200));
    assert_eq!(d.deadline("C"), None);

    let expired = release_expired_keys(&mut d, &mut keys, 199);
    assert!(expired.is_empty());
    assert_eq!(keys.visual("B"), KeyVisual::Down);

    let expired = release_expired_keys(&mut d, &mut keys, 200);
    assert_eq!(expired, vec!["B".to_owned()]);
    assert_eq!(keys.visual("B"), KeyVisual::Seen);
}
