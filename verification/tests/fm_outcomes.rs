use herdr_core::fm_io::{
    fail_pending_root_on_recovery, location_authority_is_current, outcome_action, trail_directory_request, FileManagerIoRequest, FileManagerIoIdentity, FileManagerIoSource,
    FileManagerTrailDestinationPolicy, OutcomeAction, PreparedOutcome, RootNavigationError, TrailCursor,
};
use herdr_core::locations::{FileManagerLocationLoadError, FileManagerLocationsFocus, FileManagerLocationsState};
use herdr_core::locations_model::{FileManagerLocationIcon, FileManagerLocationItem, FileManagerLocationsModel};

fn item(path: &str, accessible: bool) -> FileManagerLocationItem {
    FileManagerLocationItem {
        label: path.to_string(),
        path: path.to_string(),
        icon: FileManagerLocationIcon::Pin,
        accessible,
        ejectable: false,
    }
}

fn model() -> FileManagerLocationsModel {
    FileManagerLocationsModel::from_sources(vec![item("/home", true), item("/gone", false)], Vec::new(), Vec::new())
}

fn root(target: &str) -> FileManagerIoIdentity {
    FileManagerIoIdentity::Root { files_generation: 3, location_model_revision: 1, target_root: target.to_string() }
}

fn source() -> FileManagerIoSource {
    FileManagerIoSource {
        directory: "/home".into(),
        directory_generation: 1,
        preview_generation: 2,
        miller_revision: 3,
        show_hidden: false,
    }
}

fn preview(col: usize) -> FileManagerIoIdentity {
    FileManagerIoIdentity::TrailPreview {
        files_generation: 3,
        source: source(),
        trail_col: col,
        entry_index: 4,
        expected_path: "/home/docs".into(),
    }
}

#[test]
fn a_root_load_is_accepted_only_for_its_own_accessible_target() {
    let m = model();
    let loaded = PreparedOutcome::RootLoaded { prepared: root("/home"), target: "/home".into() };
    assert_eq!(outcome_action(&root("/home"), &loaded, 3, &m, None, None), OutcomeAction::AcceptRoot);
    assert_eq!(outcome_action(&root("/home"), &loaded, 3, &m, Some(true), None), OutcomeAction::AcceptRoot);
    assert_eq!(
        outcome_action(&root("/home"), &loaded, 3, &m, Some(false), None),
        OutcomeAction::FailRoot(FileManagerLocationLoadError::Unavailable)
    );
    assert_eq!(outcome_action(&root("/other"), &loaded, 3, &m, None, None), OutcomeAction::RejectRoot);
    let inaccessible = PreparedOutcome::RootLoaded { prepared: root("/gone"), target: "/gone".into() };
    assert_eq!(outcome_action(&root("/gone"), &inaccessible, 3, &m, None, None), OutcomeAction::RejectRoot);
}

#[test]
fn failed_and_panicked_root_loads_fail_the_pending_load() {
    let m = model();
    assert_eq!(
        outcome_action(&root("/home"), &PreparedOutcome::RootFailed(RootNavigationError::PermissionDenied), 3, &m, None, None),
        OutcomeAction::FailRoot(FileManagerLocationLoadError::PermissionDenied)
    );
    assert_eq!(
        outcome_action(&root("/home"), &PreparedOutcome::Panicked { root: true }, 3, &m, None, None),
        OutcomeAction::FailRoot(FileManagerLocationLoadError::Unavailable)
    );
    assert_eq!(
        outcome_action(&preview(1), &PreparedOutcome::Panicked { root: false }, 3, &m, None, None),
        OutcomeAction::Ignore
    );
}

#[test]
fn navigation_applies_only_to_its_own_files_instance() {
    let m = model();
    let nav = PreparedOutcome::Navigate { files_generation: 3, loaded: true };
    assert_eq!(outcome_action(&preview(1), &nav, 3, &m, None, None), OutcomeAction::ApplyNavigation);
    assert_eq!(outcome_action(&preview(1), &nav, 4, &m, None, None), OutcomeAction::Ignore);
    let empty = PreparedOutcome::Navigate { files_generation: 3, loaded: false };
    assert_eq!(outcome_action(&preview(1), &empty, 3, &m, None, None), OutcomeAction::Ignore);
    assert_eq!(outcome_action(&preview(1), &PreparedOutcome::Refresh, 3, &m, None, None), OutcomeAction::ApplyRefresh);
}

#[test]
fn a_preview_installs_only_while_the_cursor_rests_on_its_directory() {
    let m = model();
    let cursor = TrailCursor { trail_col: 1, entry_index: 4, path: "/home/docs".into(), is_directory: true };
    let outcome = PreparedOutcome::TrailPreview { prepared: preview(1), loaded: true };
    assert_eq!(outcome_action(&preview(1), &outcome, 3, &m, None, Some(&cursor)), OutcomeAction::Install);
    assert_eq!(outcome_action(&preview(1), &outcome, 3, &m, None, None), OutcomeAction::Ignore);
    let moved = TrailCursor { trail_col: 2, ..cursor };
    assert_eq!(outcome_action(&preview(1), &outcome, 3, &m, None, Some(&moved)), OutcomeAction::Ignore);
    let other = PreparedOutcome::TrailPreview { prepared: preview(2), loaded: true };
    let cursor = TrailCursor { trail_col: 1, entry_index: 4, path: "/home/docs".into(), is_directory: true };
    assert_eq!(outcome_action(&preview(1), &other, 3, &m, None, Some(&cursor)), OutcomeAction::Ignore);
}

#[test]
fn an_activation_installs_only_when_it_branched() {
    let m = model();
    let id = FileManagerIoIdentity::TrailActivate {
        files_generation: 3,
        source: source(),
        trail_col: 1,
        entry_index: 0,
        expected_path: "/home/a".into(),
        destination_policy: FileManagerTrailDestinationPolicy::FocusFirstActionable,
    };
    let same = FileManagerIoIdentity::TrailActivate {
        files_generation: 3,
        source: source(),
        trail_col: 1,
        entry_index: 0,
        expected_path: "/home/a".into(),
        destination_policy: FileManagerTrailDestinationPolicy::FocusFirstActionable,
    };
    let branched = PreparedOutcome::TrailActivate { prepared: same, branched: Some(true) };
    assert_eq!(outcome_action(&id, &branched, 3, &m, None, None), OutcomeAction::Install);
    let refresh_id = FileManagerIoIdentity::TrailRefresh { files_generation: 3, source: source(), expected_directory: "/home".into() };
    let refresh = PreparedOutcome::TrailRefresh {
        prepared: FileManagerIoIdentity::TrailRefresh { files_generation: 3, source: source(), expected_directory: "/home".into() },
        projection_changed: Some(false),
    };
    assert_eq!(
        outcome_action(&refresh_id, &refresh, 3, &m, None, None),
        OutcomeAction::InstallReconciled { projection_changed: false }
    );
    assert_eq!(outcome_action(&id, &refresh, 3, &m, None, None), OutcomeAction::Ignore);
}

#[test]
fn the_rail_keeps_authority_only_on_its_live_cursor() {
    let m = model();
    let mut state = FileManagerLocationsState::default();
    assert!(state.accept_location("/home", &m, false));
    assert_eq!(state.focus(), FileManagerLocationsFocus::Rail);
    assert!(location_authority_is_current(Some(3), &state, &m, "/home", 3, m.revision()));
    assert!(!location_authority_is_current(Some(4), &state, &m, "/home", 3, m.revision()));
    assert!(!location_authority_is_current(None, &state, &m, "/home", 3, m.revision()));
    assert!(!location_authority_is_current(Some(3), &state, &m, "/home", 3, m.revision() + 1));
    assert!(!location_authority_is_current(Some(3), &state, &m, "/gone", 3, m.revision()));
    state.focus_trail();
    assert!(!location_authority_is_current(Some(3), &state, &m, "/home", 3, m.revision()));
}

#[test]
fn accepting_a_location_to_enter_the_trail_hands_it_the_keyboard() {
    let m = model();
    let mut state = FileManagerLocationsState::default();
    assert!(state.open_drawer());
    assert!(state.accept_location("/home", &m, true));
    assert!(!state.drawer_is_open());
    assert_eq!(state.focus(), FileManagerLocationsFocus::Trail);
    assert!(!state.accept_location("/gone", &m, true));
}

#[test]
fn a_trail_directory_asks_for_a_preview_or_an_activation() {
    let preview = trail_directory_request(Some(3), Some(true), source(), 1, 4, "/home/docs".into(), true, "fm");
    match preview {
        Some(FileManagerIoRequest::TrailPreview { files_generation, trail_col, entry_index, expected_path, file_manager, .. }) => {
            assert_eq!((files_generation, trail_col, entry_index), (3, 1, 4));
            assert_eq!(expected_path, "/home/docs");
            assert_eq!(file_manager, "fm");
        }
        other => panic!("expected a preview, got {other:?}"),
    }
    let activate = trail_directory_request(Some(3), Some(true), source(), 1, 4, "/home/docs".into(), false, "fm");
    assert!(matches!(
        activate,
        Some(FileManagerIoRequest::TrailActivate {
            destination_policy: FileManagerTrailDestinationPolicy::FocusFirstActionable,
            ..
        })
    ));
    assert!(trail_directory_request(None, Some(true), source(), 1, 4, "/x".into(), true, "fm").is_none());
    assert!(trail_directory_request(Some(3), Some(false), source(), 1, 4, "/x".into(), true, "fm").is_none());
    assert!(trail_directory_request(Some(3), None, source(), 1, 4, "/x".into(), false, "fm").is_none());
}

#[test]
fn a_dead_lane_fails_the_pending_root_only_under_authority() {
    let m = model();
    let mut state = FileManagerLocationsState::default();
    assert!(!fail_pending_root_on_recovery(Some(3), &mut state, &m), "nothing pending");
    assert!(state.accept_location("/home", &m, false));
    state.begin_load("/home".into(), 3, m.revision(), 9);
    assert!(!fail_pending_root_on_recovery(Some(4), &mut state, &m), "another Files instance");
    assert!(state.pending.is_some());
    assert!(fail_pending_root_on_recovery(Some(3), &mut state, &m));
    assert!(state.pending.is_none());
    assert_eq!(state.failure, Some(("/home".to_string(), FileManagerLocationLoadError::Unavailable)));
}
