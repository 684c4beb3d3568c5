use rafters_docs::watch::{watched_roots, WatchError};

#[test]
fn unwatchable_roots_are_passed_over() {
    assert_eq!(watched_roots(&vec![true, false, true]), Ok(vec![0, 2]));
    assert_eq!(watched_roots(&vec![false, true]), Ok(vec![1]));
}

#[test]
fn no_watchable_root_is_fatal() {
    assert_eq!(watched_roots(&vec![false, false]), Err(WatchError::NoRootWatchable));
    assert_eq!(watched_roots(&vec![]), Err(WatchError::NoRootWatchable));
}
