use rafters_docs::coordinator::{BuildCoordinator, BuildOutcome};
use rafters_docs::protocol::BuildStatus;

fn ok(assets: Option<Vec<&str>>) -> BuildOutcome {
    BuildOutcome::Success {
        pages: 3,
        components: 2,
        changed_assets: assets.map(|v| v.into_iter().map(String::from).collect()),
    }
}

#[test]
fn only_one_build_runs_at_a_time() {
    let mut c = BuildCoordinator::new();
    assert!(c.request_rebuild());
    assert!(!c.request_rebuild());
    assert!(c.in_flight);
    let (r, again) = c.finish(ok(None), 12);
    assert_eq!(r.generation, 1);
    assert!(again);
    assert!(c.in_flight);
    let (r2, again2) = c.finish(ok(None), 7);
    assert_eq!(r2.generation, 2);
    assert!(!again2);
    assert!(!c.in_flight);
}

#[test]
fn change_during_build_reruns_immediately() {
    let mut c = BuildCoordinator::new();
    assert!(c.request_rebuild());
    c.note_change();
    assert!(c.dirty);
    let (_, again) = c.finish(ok(None), 1);
    assert!(again);
    assert!(c.in_flight);
    assert!(!c.dirty);
}

#[test]
fn change_while_idle_owes_nothing() {
    let mut c = BuildCoordinator::new();
    c.note_change();
    assert!(!c.dirty);
    assert!(!c.in_flight);
}

#[test]
fn generations_increase_through_failures() {
    let mut c = BuildCoordinator::new();
    let mut last = 0;
    for i in 0..5 {
        assert!(c.request_rebuild());
        let outcome = if i % 2 == 0 {
            BuildOutcome::Failure { message: "parse error".to_string() }
        } else {
            ok(Some(vec!["index.html"]))
        };
        let (r, _) = c.finish(outcome, 3);
        assert!(r.generation > last);
        assert_eq!(r.generation, last + 1);
        last = r.generation;
    }
    assert_eq!(c.generation, 5);
}

#[test]
fn results_record_outcomes() {
    let mut c = BuildCoordinator::new();
    c.request_rebuild();
    let (r, _) = c.finish(BuildOutcome::Failure { message: "boom".to_string() }, 40);
    assert_eq!(r.status, BuildStatus::Failure);
    assert_eq!(r.error, Some("boom".to_string()));
    assert!(r.changed_assets.is_empty());
    assert_eq!(r.duration_ms, 40);
    c.request_rebuild();
    let (r, _) = c.finish(ok(Some(vec!["style.css"])), 8);
    assert_eq!(r.status, BuildStatus::Success);
    assert_eq!(r.changed_assets, vec!["style.css".to_string()]);
    assert_eq!(r.error, None);
    c.request_rebuild();
    let (r, _) = c.finish(ok(None), 8);
    assert!(r.changed_assets.is_empty());
}
