use muxrd::ratelimit::{env_truthy, sweep_due, MAX_TRACKED_IPS};

#[test]
fn the_switch_is_on_for_anything_but_nothing_and_zero() {
    assert!(env_truthy(Some("1")));
    assert!(env_truthy(Some("no")));
    assert!(env_truthy(Some("00")));
    assert!(!env_truthy(Some("0")));
    assert!(!env_truthy(Some("")));
    assert!(!env_truthy(None));
}

#[test]
fn idle_clients_are_forgotten_only_now_and_then() {
    assert!(sweep_due(0, MAX_TRACKED_IPS + 1));
    assert!(sweep_due(MAX_TRACKED_IPS, MAX_TRACKED_IPS + 1));
    assert!(!sweep_due(1, MAX_TRACKED_IPS + 1));
    assert!(!sweep_due(0, MAX_TRACKED_IPS));
}
