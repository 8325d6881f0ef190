use herdr_core::creation::{
    expand_tilde_path, launch_cwd_for_terminal, merge_daily_workspaces, resolve_new_terminal_cwd, workspace_creation_source,
    NewTerminalCwdConfig,
};

fn s(v: &str) -> Option<String> {
    Some(v.to_string())
}

#[test]
fn a_new_terminal_follows_then_falls_back_to_home_then_the_process_directory() {
    let follow = NewTerminalCwdConfig::Follow;
    assert_eq!(resolve_new_terminal_cwd(&follow, s("/pane"), s("/home/u"), s("/proc")), "/pane");
    assert_eq!(resolve_new_terminal_cwd(&follow, None, s("/home/u"), s("/proc")), "/home/u");
    assert_eq!(resolve_new_terminal_cwd(&follow, None, None, s("/proc")), "/proc");
    assert_eq!(resolve_new_terminal_cwd(&follow, None, None, None), "/");
}

#[test]
fn home_current_and_path_policies_ignore_the_followed_pane() {
    assert_eq!(resolve_new_terminal_cwd(&NewTerminalCwdConfig::Home, s("/pane"), s("/home/u"), s("/proc")), "/home/u");
    assert_eq!(resolve_new_terminal_cwd(&NewTerminalCwdConfig::Home, s("/pane"), None, None), "/");
    assert_eq!(resolve_new_terminal_cwd(&NewTerminalCwdConfig::Current, s("/pane"), s("/home/u"), s("/proc")), "/proc");
    assert_eq!(resolve_new_terminal_cwd(&NewTerminalCwdConfig::Current, s("/pane"), s("/home/u"), None), "/");
    assert_eq!(
        resolve_new_terminal_cwd(&NewTerminalCwdConfig::Path("/srv/work".into()), s("/pane"), s("/home/u"), s("/proc")),
        "/srv/work"
    );
}

#[test]
fn a_launch_prefers_the_running_programs_directory() {
    assert_eq!(launch_cwd_for_terminal(s("/live"), s("/opened")), s("/live"));
    assert_eq!(launch_cwd_for_terminal(None, s("/opened")), s("/opened"));
    assert_eq!(launch_cwd_for_terminal(None, None), None);
}

#[test]
fn creation_starts_from_the_selection_while_navigating_else_the_active_workspace() {
    assert_eq!(workspace_creation_source(true, 1, Some(0), 3), Some(1));
    assert_eq!(workspace_creation_source(true, 5, Some(0), 3), Some(0));
    assert_eq!(workspace_creation_source(false, 1, Some(0), 3), Some(0));
    assert_eq!(workspace_creation_source(false, 1, None, 3), Some(1));
    assert_eq!(workspace_creation_source(false, 3, None, 3), None);
}

fn ids(n: usize) -> Vec<String> {
    (0..n).map(|i| format!("ws-{i}")).collect()
}

#[test]
fn merging_carries_every_other_pane_into_the_survivor() {
    let panes = vec![vec![s("p0")], vec![s("p1a"), s("p1b")], vec![s("p2")]];
    let (target, moves) = merge_daily_workspaces(&vec![0, 1, 2], Some(0), &ids(3), &panes).expect("merge");
    assert_eq!(target, "ws-0");
    assert_eq!(moves, vec!["p1a".to_string(), "p1b".to_string(), "p2".to_string()]);
}

#[test]
fn the_workspace_you_are_in_is_the_one_that_survives() {
    let panes = vec![vec![s("p0")], vec![s("p1")], vec![s("p2")]];
    let (target, moves) = merge_daily_workspaces(&vec![0, 1, 2], Some(2), &ids(3), &panes).expect("merge");
    assert_eq!(target, "ws-2");
    assert_eq!(moves, vec!["p0".to_string(), "p1".to_string()]);
}

#[test]
fn merging_leaves_a_named_workspace_alone() {
    // The named workspace (index 2) is not mergeable, so none of its panes move.
    let panes = vec![vec![s("p0")], vec![s("p1")], vec![s("named")]];
    let (_, moves) = merge_daily_workspaces(&vec![0, 1], Some(0), &ids(3), &panes).expect("merge");
    assert_eq!(moves, vec!["p1".to_string()]);
}

#[test]
fn merging_a_single_workspace_changes_nothing() {
    let panes = vec![vec![s("p0")]];
    assert_eq!(merge_daily_workspaces(&vec![0], Some(0), &ids(1), &panes), None);
    assert_eq!(merge_daily_workspaces(&vec![0, 1], None, &ids(2), &vec![vec![], vec![]]), None);
    assert_eq!(merge_daily_workspaces(&vec![0, 1], Some(7), &ids(2), &vec![vec![], vec![]]), None);
}

#[test]
fn panes_without_a_public_id_and_vanished_workspaces_are_skipped() {
    let panes = vec![vec![s("p0")], vec![None, s("p1")]];
    let (_, moves) = merge_daily_workspaces(&vec![0, 1, 9], Some(0), &ids(2), &panes).expect("merge");
    assert_eq!(moves, vec!["p1".to_string()]);
}

#[test]
fn a_configured_directory_reads_a_leading_tilde_as_home() {
    assert_eq!(expand_tilde_path("~", Some("/home/u")), "/home/u");
    assert_eq!(expand_tilde_path("~/work/site", Some("/home/u")), "/home/u/work/site");
    assert_eq!(expand_tilde_path("/srv/x", Some("/home/u")), "/srv/x");
    assert_eq!(expand_tilde_path("~other/x", Some("/home/u")), "~other/x");
    assert_eq!(expand_tilde_path("~/x", None), "~/x");
}
