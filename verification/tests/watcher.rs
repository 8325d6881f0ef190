use herdr_core::watcher::{
    drain_limit_reached, drain_refresh, watcher_needs_refresh, FileManagerWatcherMode, WatcherSchedule,
    WatcherSync, WATCH_DRAIN_LIMIT, WATCH_RECONCILE_INTERVAL_MS,
};

#[test]
fn reconciliation_deadline_is_bounded_and_repeats_without_early_polling() {
    let mut watcher = WatcherSchedule::new();
    let started_at = 10_000;
    watcher.apply_sync(WatcherSync::Started { native: false }, started_at);
    assert_eq!(watcher.mode(), FileManagerWatcherMode::PollingFallback);
    let first_deadline = watcher.next_reconcile_at().expect("active watcher has reconciliation deadline");
    assert!(first_deadline >= started_at + WATCH_RECONCILE_INTERVAL_MS);
    assert!(!watcher.take_reconcile_due(first_deadline - 1));
    assert!(watcher.take_reconcile_due(first_deadline));

    let second_deadline = watcher.next_reconcile_at().expect("reconciliation deadline repeats");
    assert!(second_deadline > first_deadline);
    assert!(!watcher.take_reconcile_due(first_deadline));
}

#[test]
fn runtime_error_and_channel_disconnect_degrade_native_mode_to_polling() {
    let mut watcher = WatcherSchedule::new();
    watcher.apply_sync(WatcherSync::Started { native: true }, 0);
    assert_eq!(watcher.mode(), FileManagerWatcherMode::Native);
    watcher.note_drain(false, false);
    assert_eq!(watcher.mode(), FileManagerWatcherMode::Native);
    watcher.note_drain(false, true);
    assert_eq!(watcher.mode(), FileManagerWatcherMode::PollingFallback);

    let mut disconnected = WatcherSchedule::new();
    disconnected.apply_sync(WatcherSync::Started { native: true }, 0);
    disconnected.note_drain(true, false);
    assert_eq!(disconnected.mode(), FileManagerWatcherMode::PollingFallback);
}

#[test]
fn a_stopped_watcher_schedules_nothing() {
    let mut watcher = WatcherSchedule::new();
    watcher.apply_sync(WatcherSync::Started { native: true }, 5);
    watcher.apply_sync(WatcherSync::Stopped, 6);
    assert_eq!(watcher.mode(), FileManagerWatcherMode::Inactive);
    assert_eq!(watcher.next_reconcile_at(), None);
    assert!(!watcher.take_reconcile_due(u64::MAX));
}

#[test]
fn an_operation_owns_only_its_own_burst_until_it_expires() {
    let mut watcher = WatcherSchedule::new();
    watcher.apply_sync(WatcherSync::Started { native: true }, 0);
    let owned = vec!["/w/a".to_string(), "/w/b".to_string()];
    assert!(!watcher.own_operation_reconcile(false, true, 3, owned.clone(), false, 100));
    assert!(!watcher.own_operation_reconcile(true, true, 3, Vec::new(), false, 100));
    assert!(watcher.own_operation_reconcile(true, true, 3, owned.clone(), true, 100));
    assert_eq!(watcher.owned_generation(), Some(3));
    assert_eq!(watcher.requested_generation(), Some(3));

    assert!(watcher.owns_drained_operation_burst(&vec!["/w/a".to_string()], 200, true));
    assert!(!watcher.owns_drained_operation_burst(&Vec::new(), 200, true));
    assert_eq!(watcher.owned_generation(), Some(3));
    assert!(!watcher.owns_drained_operation_burst(&vec!["/w/a".to_string(), "/w/zz".to_string()], 200, true));
    assert_eq!(watcher.owned_generation(), None, "a foreign path ends the ownership");

    assert!(watcher.own_operation_reconcile(true, true, 3, owned, false, 100));
    assert!(!watcher.owns_drained_operation_burst(&vec!["/w/a".to_string()], 100 + WATCH_RECONCILE_INTERVAL_MS + 1, true));
    assert_eq!(watcher.owned_generation(), None, "an expired burst is forgotten");
}

#[test]
fn a_requested_reconcile_is_consumed_once() {
    let mut watcher = WatcherSchedule::new();
    assert!(!watcher.request_reconcile(true, false, 4));
    assert!(watcher.request_reconcile(true, true, 4));
    assert!(watcher.take_requested_reconcile(true));
    assert!(!watcher.take_requested_reconcile(true));
    assert!(watcher.request_reconcile(true, true, 4));
    assert!(!watcher.take_requested_reconcile(false));
    assert_eq!(watcher.requested_generation(), None);
}

#[test]
fn reconcile_revisions_move_and_skip_zero() {
    let mut watcher = WatcherSchedule::new();
    let snapshot = watcher.reconcile_snapshot(true, true, 9).expect("watched with a backend");
    assert_eq!(snapshot, (9, 0));
    assert!(watcher.reconcile_snapshot(true, false, 9).is_none());
    assert!(!watcher.reconciled_since(true, true, snapshot.1));
    watcher.record_reconcile();
    assert_eq!(watcher.reconcile_revision(), 1);
    assert!(watcher.reconciled_since(true, true, snapshot.1));
    assert!(!watcher.reconciled_since(false, true, snapshot.1));
}

#[test]
fn a_tick_refreshes_only_for_foreign_events_or_reconciles() {
    assert!(watcher_needs_refresh(true, false, false, false));
    assert!(!watcher_needs_refresh(true, true, false, false));
    assert!(watcher_needs_refresh(true, true, true, false));
    assert!(watcher_needs_refresh(false, false, false, true));
    assert!(!watcher_needs_refresh(false, false, false, false));
}

#[test]
fn a_full_drain_budget_is_reported() {
    assert!(drain_limit_reached(WATCH_DRAIN_LIMIT, WATCH_DRAIN_LIMIT));
    assert!(!drain_limit_reached(WATCH_DRAIN_LIMIT - 1, WATCH_DRAIN_LIMIT));
    assert!(!drain_limit_reached(0, 0));
}

#[test]
fn an_overflow_with_a_backend_forces_a_refresh() {
    assert!(drain_refresh(false, true, true));
    assert!(!drain_refresh(false, true, false));
    assert!(drain_refresh(true, false, false));
    assert!(!drain_refresh(false, false, true));
}
