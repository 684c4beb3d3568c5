use rafters_docs::hub::HmrHub;
use rafters_docs::protocol::{BuildResult, BuildStatus, HmrMessage};

fn success(generation: u64, assets: &[&str]) -> BuildResult {
    BuildResult {
        generation,
        status: BuildStatus::Success,
        changed_assets: assets.iter().map(|s| s.to_string()).collect(),
        error: None,
        duration_ms: 5,
    }
}

#[test]
fn late_client_gets_connected_with_current_generation_only() {
    let mut hub = HmrHub::new(0);
    for g in 1..=4 {
        hub.announce(&success(g, &[]));
    }
    let (id, msg) = hub.register();
    assert_eq!(id, 0);
    assert!(matches!(msg, HmrMessage::Connected { generation: 4 }));
    assert_eq!(hub.clients[0].last_generation, 4);
    assert_eq!(hub.client_count(), 1);
}

#[test]
fn unregister_is_idempotent_and_keeps_others() {
    let mut hub = HmrHub::new(0);
    let (a, _) = hub.register();
    let (b, _) = hub.register();
    let (c, _) = hub.register();
    assert!(hub.unregister(b));
    assert!(!hub.unregister(b));
    let ids: Vec<u64> = hub.clients.iter().map(|x| x.id).collect();
    assert_eq!(ids, vec![a, c]);
}

#[test]
fn stalled_client_dropped_others_still_served() {
    let mut hub = HmrHub::new(0);
    let (fast, _) = hub.register();
    let (stalled, _) = hub.register();
    let (msg, targets) = hub.announce(&success(1, &[]));
    assert_eq!(targets, vec![fast, stalled]);
    assert!(matches!(msg, HmrMessage::Reload { generation: 1 }));
    // the send to the stalled client timed out
    assert!(hub.unregister(stalled));
    let (_, targets) = hub.announce(&success(2, &[]));
    assert_eq!(targets, vec![fast]);
    assert_eq!(hub.clients[0].last_generation, 2);
}

#[test]
fn stylesheet_change_sends_css_update() {
    let mut hub = HmrHub::new(0);
    hub.register();
    let (msg, _) = hub.announce(&success(1, &["style.css"]));
    match msg {
        HmrMessage::CssUpdate { generation, paths } => {
            assert_eq!(generation, 1);
            assert_eq!(paths, vec!["style.css".to_string()]);
        }
        other => panic!("expected a stylesheet update, got {:?}", other),
    }
}

#[test]
fn mixed_or_unknown_change_sends_reload() {
    let mut hub = HmrHub::new(0);
    let (msg, _) = hub.announce(&success(1, &["style.css", "index.html"]));
    assert!(matches!(msg, HmrMessage::Reload { generation: 1 }));
    let (msg, _) = hub.announce(&success(2, &[]));
    assert!(matches!(msg, HmrMessage::Reload { generation: 2 }));
    let (msg, _) = hub.announce(&success(3, &["css"]));
    assert!(matches!(msg, HmrMessage::Reload { generation: 3 }));
}

#[test]
fn failure_sends_build_error() {
    let mut hub = HmrHub::new(0);
    hub.register();
    let r = BuildResult {
        generation: 1,
        status: BuildStatus::Failure,
        changed_assets: vec![],
        error: Some("unclosed tag".to_string()),
        duration_ms: 1,
    };
    let (msg, targets) = hub.announce(&r);
    assert_eq!(targets.len(), 1);
    match msg {
        HmrMessage::BuildError { generation, message } => {
            assert_eq!(generation, 1);
            assert_eq!(message, "unclosed tag");
        }
        other => panic!("expected an error, got {:?}", other),
    }
}

#[test]
fn close_all_empties_the_hub() {
    let mut hub = HmrHub::new(0);
    hub.register();
    hub.register();
    assert_eq!(hub.close_all(), vec![0, 1]);
    assert_eq!(hub.client_count(), 0);
}
