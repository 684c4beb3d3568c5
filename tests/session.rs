use rafters_docs::coordinator::BuildOutcome;
use rafters_docs::protocol::{BuildStatus, HmrMessage};
use rafters_docs::session::DevSession;

fn ok(assets: Option<Vec<&str>>) -> BuildOutcome {
    BuildOutcome::Success {
        pages: 1,
        components: 0,
        changed_assets: assets.map(|v| v.into_iter().map(String::from).collect()),
    }
}

fn started() -> DevSession {
    let mut s = DevSession::new(150);
    assert!(s.request_build());
    let step = s.on_build_finished(ok(None), 20);
    assert_eq!(step.result.generation, 1);
    assert_eq!(s.served_generation, Some(1));
    s
}

#[test]
fn three_quick_edits_give_one_reload() {
    let mut s = started();
    s.connect().unwrap();
    s.on_file_event(1000);
    s.on_file_event(1010);
    s.on_file_event(1020);
    assert!(!s.on_tick(1100));
    assert!(s.on_tick(1170));
    assert!(!s.on_tick(1200));
    let step = s.on_build_finished(ok(None), 9);
    let (msg, ids) = step.broadcast.unwrap();
    assert!(matches!(msg, HmrMessage::Reload { generation: 2 }));
    assert_eq!(ids.len(), 1);
    assert!(!step.rebuild_now);
    assert!(!s.on_tick(5000));
}

#[test]
fn build_error_reaches_all_clients_and_keeps_served_output() {
    let mut s = started();
    let (a, _) = s.connect().unwrap();
    let (b, _) = s.connect().unwrap();
    s.on_file_event(10);
    assert!(s.on_tick(200));
    let step = s.on_build_finished(BuildOutcome::Failure { message: "bad doc".to_string() }, 4);
    assert_eq!(step.result.status, BuildStatus::Failure);
    let (msg, ids) = step.broadcast.unwrap();
    assert_eq!(ids, vec![a, b]);
    match msg {
        HmrMessage::BuildError { generation, message } => {
            assert_eq!(generation, 2);
            assert_eq!(message, "bad doc");
        }
        other => panic!("expected an error, got {:?}", other),
    }
    assert_eq!(s.served_generation, Some(1));
}

#[test]
fn stylesheet_only_rebuild_sends_css_update() {
    let mut s = started();
    s.connect().unwrap();
    s.on_file_event(0);
    assert!(s.on_tick(150));
    let step = s.on_build_finished(ok(Some(vec!["style.css"])), 3);
    let (msg, _) = step.broadcast.unwrap();
    assert!(matches!(msg, HmrMessage::CssUpdate { generation: 2, .. }));
}

#[test]
fn edit_during_build_rebuilds_immediately() {
    let mut s = started();
    s.on_file_event(0);
    assert!(s.on_tick(150));
    s.on_file_event(160);
    assert!(!s.on_tick(400));
    let step = s.on_build_finished(ok(None), 50);
    assert!(step.rebuild_now);
    assert!(s.coordinator.in_flight);
    assert_eq!(s.debouncer.deadline(), None);
    let step = s.on_build_finished(ok(None), 50);
    assert!(!step.rebuild_now);
    assert_eq!(step.result.generation, 3);
}

#[test]
fn late_connect_gets_current_generation() {
    let mut s = started();
    for t in 0..3u64 {
        s.on_file_event(t * 1000);
        assert!(s.on_tick(t * 1000 + 150));
        s.on_build_finished(ok(None), 1);
    }
    let (_, msg) = s.connect().unwrap();
    assert!(matches!(msg, HmrMessage::Connected { generation: 4 }));
}

#[test]
fn shutdown_during_build_suppresses_broadcast() {
    let mut s = started();
    let (a, _) = s.connect().unwrap();
    let (b, _) = s.connect().unwrap();
    s.on_file_event(0);
    assert!(s.on_tick(150));
    s.on_file_event(160);
    let closed = s.shutdown();
    assert_eq!(closed, vec![a, b]);
    let step = s.on_build_finished(ok(None), 70);
    assert_eq!(step.result.generation, 2);
    assert!(step.broadcast.is_none());
    assert!(!step.rebuild_now);
    assert!(!s.coordinator.in_flight);
    assert!(s.connect().is_none());
    s.on_file_event(500);
    assert!(!s.on_tick(10_000));
    assert!(!s.request_build());
}

#[test]
fn disconnect_twice_is_harmless() {
    let mut s = started();
    let (a, _) = s.connect().unwrap();
    assert!(s.disconnect(a));
    assert!(!s.disconnect(a));
}
