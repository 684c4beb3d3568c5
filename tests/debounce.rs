use rafters_docs::debounce::{DebounceState, Debouncer};

#[test]
fn burst_within_window_fires_once() {
    let mut d = Debouncer::new(150);
    d.event_received(0);
    d.event_received(10);
    d.event_received(20);
    assert!(!d.timer_fired(100));
    assert!(!d.timer_fired(169));
    assert!(d.timer_fired(170));
    assert_eq!(d.state, DebounceState::Idle);
    assert!(!d.timer_fired(400));
    assert!(!d.timer_fired(10_000));
}

#[test]
fn storm_defers_until_pause() {
    let mut d = Debouncer::new(100);
    let mut fired = 0;
    let mut t: u64 = 0;
    while t < 1000 {
        d.event_received(t);
        if d.timer_fired(t + 50) {
            fired += 1;
        }
        t += 60;
    }
    assert_eq!(fired, 0);
    assert_eq!(d.deadline(), Some(960 + 100));
    assert!(d.timer_fired(1060));
    assert_eq!(d.deadline(), None);
}

#[test]
fn deadline_saturates() {
    let mut d = Debouncer::new(150);
    d.event_received(u64::MAX - 10);
    assert_eq!(d.deadline(), Some(u64::MAX));
    assert!(!d.timer_fired(u64::MAX - 1));
    assert!(d.timer_fired(u64::MAX));
}

#[test]
fn cancel_drops_owed_rebuild() {
    let mut d = Debouncer::new(150);
    d.event_received(5);
    d.cancel();
    assert_eq!(d.deadline(), None);
    assert!(!d.timer_fired(1_000));
}
