use herdr_core::dormancy::{
    dormancy_guard, dormancy_sweep, dormant_history_paths, panes_to_wake, sweep_outcome, tab_effectively_watched, wake_action,
    DormancyFacts, DormancyRefusal, IntervalClock, RetirementClock, SweepPane, WakeAction,
    WakeCandidate, DORMANCY_QUIET_THRESHOLD_MS, IDLE_SERVER_EXIT_GRACE_MS,
};

fn retired(id: &str, watched: bool) -> SweepPane {
    SweepPane { terminal_id: id.to_string(), has_runtime: true, child_exited: true, watched }
}

fn facts() -> DormancyFacts {
    DormancyFacts {
        pane_found: true,
        has_runtime: true,
        child_exited: true,
        watched: false,
        history_unreadable: false,
    }
}

#[test]
fn a_pane_with_a_live_child_is_refused_dormancy() {
    let live = DormancyFacts { child_exited: false, ..facts() };
    assert_eq!(dormancy_guard(live), Err(DormancyRefusal::ChildStillRunning));
    let watched = DormancyFacts { watched: true, ..facts() };
    assert_eq!(dormancy_guard(watched), Err(DormancyRefusal::Watched));
    assert_eq!(dormancy_guard(DormancyFacts { pane_found: false, ..facts() }), Err(DormancyRefusal::NoSuchPane));
    assert_eq!(dormancy_guard(DormancyFacts { has_runtime: false, ..facts() }), Err(DormancyRefusal::NoRuntime));
    assert_eq!(
        dormancy_guard(DormancyFacts { history_unreadable: true, ..facts() }),
        Err(DormancyRefusal::HistoryUnavailable)
    );
    assert_eq!(dormancy_guard(facts()), Ok(()));
}

#[test]
fn the_sweep_waits_out_the_quiet_threshold_without_memory_pressure() {
    let panes = vec![retired("t1", false)];
    let start = 1_000;
    let (ledger, candidates) = dormancy_sweep(&panes, &Vec::new(), start, false);
    assert!(candidates.is_empty(), "a freshly retired pane is only marked, not slept");
    assert_eq!(ledger, vec![("t1".to_string(), start)]);
    let later = start + DORMANCY_QUIET_THRESHOLD_MS + 1_000;
    let (ledger, candidates) = dormancy_sweep(&panes, &ledger, later, false);
    assert_eq!(candidates, vec![0], "a day-quiet retired pane sleeps");
    assert_eq!(ledger, vec![("t1".to_string(), start)], "the mark is kept, not renewed");
}

#[test]
fn memory_pressure_sleeps_a_retired_pane_without_waiting() {
    let panes = vec![retired("t1", false), retired("t2", true)];
    let (_, candidates) = dormancy_sweep(&panes, &Vec::new(), 5, true);
    assert_eq!(candidates, vec![0], "the watched pane is spared even under pressure");
}

#[test]
fn the_sweep_never_reaches_a_live_pane_even_under_pressure() {
    let alive = SweepPane { terminal_id: "t1".to_string(), has_runtime: true, child_exited: false, watched: false };
    let old = vec![("t1".to_string(), 0u64)];
    let (ledger, candidates) = dormancy_sweep(&vec![alive], &old, DORMANCY_QUIET_THRESHOLD_MS * 2, true);
    assert!(candidates.is_empty());
    assert!(ledger.is_empty(), "a pane that came back to life leaves the ledger");
}

#[test]
fn a_server_with_a_live_child_never_retires() {
    let mut clock = RetirementClock { enabled: true, check: IntervalClock { next_at: None }, idle_since: None };
    let start = 10_000;
    assert!(!clock.retirement_due(start, false, true));
    clock.check.next_at = None;
    assert!(
        !clock.retirement_due(start + IDLE_SERVER_EXIT_GRACE_MS * 3, false, true),
        "a live child blocks retirement no matter how long the clock runs"
    );
}

#[test]
fn an_attached_client_resets_the_retirement_clock() {
    let mut clock = RetirementClock { enabled: true, check: IntervalClock { next_at: None }, idle_since: None };
    let start = 10_000;
    assert!(!clock.retirement_due(start, false, false), "clock starts");
    let mid = start + IDLE_SERVER_EXIT_GRACE_MS / 2;
    clock.check.next_at = None;
    assert!(!clock.retirement_due(mid, true, false), "a client attaches");
    let after = mid + IDLE_SERVER_EXIT_GRACE_MS / 2 + 61_000;
    clock.check.next_at = None;
    assert!(!clock.retirement_due(after, false, false), "the clock restarted at detach");
}

#[test]
fn a_childless_clientless_server_retires_after_the_grace() {
    let mut clock = RetirementClock { enabled: true, check: IntervalClock { next_at: None }, idle_since: None };
    let start = 10_000;
    assert!(!clock.retirement_due(start, false, false), "grace not yet served");
    assert!(!clock.retirement_due(start + 1, false, false), "checks run once per interval");
    let due = start + IDLE_SERVER_EXIT_GRACE_MS + 1_000;
    clock.check.next_at = None;
    assert!(clock.retirement_due(due, false, false));
    let mut off = RetirementClock { enabled: false, ..clock };
    assert!(!off.retirement_due(due * 2, false, false), "a disabled clock never retires");
}

#[test]
fn watching_and_waking() {
    assert!(tab_effectively_watched(true, true, false, None, 0, 0, 3));
    assert!(tab_effectively_watched(true, false, true, Some(1), 1, 2, 2), "the client's own tab");
    assert!(!tab_effectively_watched(true, false, false, Some(1), 1, 2, 2), "no input channel");
    assert!(!tab_effectively_watched(false, true, true, Some(1), 1, 2, 2), "no such workspace");
    assert_eq!(wake_action(true, true, true), WakeAction::ResumeAgent);
    assert_eq!(wake_action(true, true, false), WakeAction::RespawnWithHistory);
    assert_eq!(wake_action(true, false, true), WakeAction::Stay);
    let panes = vec![
        WakeCandidate { pane_id: 1, tab_watched: true, dormant: true },
        WakeCandidate { pane_id: 2, tab_watched: false, dormant: true },
        WakeCandidate { pane_id: 3, tab_watched: true, dormant: false },
        WakeCandidate { pane_id: 4, tab_watched: true, dormant: true },
    ];
    assert_eq!(panes_to_wake(&panes), vec![1, 4]);
}

#[test]
fn a_dormant_history_lands_beside_its_temporary() {
    let (file, tmp) = herdr_core::dormancy::dormant_history_paths("/data/dormant", "term-4");
    assert_eq!(file, "/data/dormant/term-4.ansi");
    assert_eq!(tmp, "/data/dormant/term-4.ansi.tmp");
}

#[test]
fn only_a_nonempty_history_is_written() {
    assert!(herdr_core::dormancy::history_worth_keeping(Some("\x1b[0mprompt$ ")));
    assert!(!herdr_core::dormancy::history_worth_keeping(Some("")));
    assert!(!herdr_core::dormancy::history_worth_keeping(None));
}

#[test]
fn the_sweep_sleeps_exactly_the_quiet_unwatched_retired_panes_and_prunes_the_ledger() {
    let live = SweepPane { terminal_id: "live".to_string(), has_runtime: true, child_exited: false, watched: false };
    let panes = vec![retired("old", false), live, retired("watched", true), retired("new", false)];
    let old = vec![("gone".to_string(), 0u64), ("old".to_string(), 10u64), ("live".to_string(), 0u64)];
    let now = 10 + DORMANCY_QUIET_THRESHOLD_MS;
    let (ledger, candidates) = dormancy_sweep(&panes, &old, now, false);
    assert_eq!(candidates, vec![0], "only the day-quiet retired pane sleeps");
    assert_eq!(
        ledger,
        vec![("old".to_string(), 10), ("watched".to_string(), now), ("new".to_string(), now)],
        "marks kept for the retired, new ones marked now, the rest dropped"
    );
}

#[test]
fn the_sweep_reports_a_change_only_when_a_pane_went_to_sleep() {
    let (announced, changed) = sweep_outcome(&vec![0, 3], &vec![Err(DormancyRefusal::HistoryWriteFailed), Ok(())]);
    assert_eq!(announced, vec![3]);
    assert!(changed);
    let (announced, changed) = sweep_outcome(&vec![1], &vec![Err(DormancyRefusal::Watched)]);
    assert!(announced.is_empty());
    assert!(!changed);
    let (announced, changed) = sweep_outcome(&Vec::new(), &Vec::new());
    assert!(announced.is_empty());
    assert!(!changed);
}

#[test]
fn a_history_path_joins_the_directory_and_the_terminal() {
    assert_eq!(
        dormant_history_paths("/run/h/", "t1"),
        ("/run/h/t1.ansi".to_string(), "/run/h/t1.ansi.tmp".to_string()),
        "a trailing separator is not doubled"
    );
    assert_eq!(dormant_history_paths("", "t1").0, "t1.ansi", "an empty directory adds no separator");
    assert_eq!(dormant_history_paths("/run/h", "/abs").0, "/abs.ansi", "an absolute tail replaces the directory");
}
