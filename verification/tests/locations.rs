use herdr_core::locations::{
    FileManagerLocationCursorMove, FileManagerLocationLoadError, FileManagerLocationOrigin,
    FileManagerLocationsFocus, FileManagerLocationsState,
};
use herdr_core::locations_model::{
    FileManagerLocationIcon, FileManagerLocationItem, FileManagerLocationsModel,
};

fn item(path: &str, accessible: bool) -> FileManagerLocationItem {
    let label = match path.rsplit('/').next() {
        Some(name) if !name.is_empty() => name.to_string(),
        _ => path.to_string(),
    };
    FileManagerLocationItem {
        label,
        path: path.to_string(),
        icon: FileManagerLocationIcon::Pin,
        accessible,
        ejectable: false,
    }
}

fn model(home_accessible: bool, include_nested: bool) -> FileManagerLocationsModel {
    let mut favorites = vec![item("/home/ayaz", home_accessible)];
    if include_nested {
        favorites.push(item("/home/ayaz/projects/herdr", true));
    }
    FileManagerLocationsModel::from_sources(favorites, Vec::new(), Vec::new())
}

fn flf_model(include_home: bool) -> FileManagerLocationsModel {
    let mut favorites = vec![item("/workspace", true), item("/missing", false)];
    if include_home {
        favorites.push(item("/home/ayaz", true));
    }
    FileManagerLocationsModel::from_sources(favorites, vec![item("/pinned", true)], vec![item("/", true)])
}

#[test]
fn flf_cursor_normalizes_exact_location_without_inferred_direct_ancestor() {
    let model = flf_model(true);
    let mut exact = FileManagerLocationsState::default();
    assert!(exact.activate_location("/home/ayaz", &model));
    assert!(!exact.normalize_cursor_for_rail(&model));
    assert_eq!(exact.cursor_path(&model), Some("/home/ayaz"));

    let mut direct = FileManagerLocationsState::default();
    direct.activate_direct("/home/ayaz/projects/herdr".to_string());
    assert!(direct.normalize_cursor_for_rail(&model));
    assert_eq!(
        direct.cursor_path(&model),
        Some("/workspace"),
        "Direct roots choose the first accessible item, not an inferred ancestor"
    );

    direct.activate_direct("/elsewhere".to_string());
    assert!(!direct.normalize_cursor_for_rail(&model));
    assert_eq!(direct.cursor_path(&model), Some("/workspace"));
}

#[test]
fn flf_cursor_steps_accessible_items_one_at_a_time_and_clamps() {
    let model = flf_model(true);
    let mut state = FileManagerLocationsState::default();
    assert!(state.normalize_cursor_for_rail(&model));
    assert_eq!(state.cursor_path(&model), Some("/workspace"));

    assert_eq!(state.move_cursor(&model, 1), FileManagerLocationCursorMove::Moved("/home/ayaz".to_string()));
    assert_eq!(state.move_cursor(&model, 1), FileManagerLocationCursorMove::Moved("/pinned".to_string()));
    assert_eq!(state.move_cursor(&model, -1), FileManagerLocationCursorMove::Moved("/home/ayaz".to_string()));
    assert_eq!(state.move_cursor(&model, -99), FileManagerLocationCursorMove::Moved("/workspace".to_string()));
    assert_eq!(state.move_cursor(&model, -1), FileManagerLocationCursorMove::Inert);
}

#[test]
fn flf_cursor_reconcile_retires_obsolete_pending_and_failure() {
    let live = flf_model(true);
    let replacement = flf_model(false);
    let mut pending = FileManagerLocationsState::default();
    assert!(pending.activate_location("/home/ayaz", &live));
    pending.begin_load("/home/ayaz".to_string(), 7, live.revision(), 11);
    assert!(pending.reconcile_model(&replacement));
    assert_eq!(pending.cursor_path(&replacement), Some("/workspace"));
    assert_eq!(pending.pending, None);

    let mut failed = FileManagerLocationsState::default();
    assert!(failed.activate_location("/home/ayaz", &live));
    failed.fail_load("/home/ayaz".to_string(), FileManagerLocationLoadError::Unavailable);
    assert!(failed.reconcile_model(&replacement));
    assert_eq!(failed.cursor_path(&replacement), Some("/workspace"));
    assert_eq!(failed.failure, None);
}

#[test]
fn flf_cursor_scroll_reveals_exact_model_line() {
    let model = flf_model(true);
    let mut state = FileManagerLocationsState::default();
    assert!(state.activate_location("/", &model));
    assert!(!state.normalize_cursor_for_rail(&model));
    assert!(state.ensure_cursor_visible(&model, 2));
    assert_eq!(state.scroll, 8);
    assert!(!state.ensure_cursor_visible(&model, 2));
}

#[test]
fn fcl_origin_location_survives_deep_descendant_navigation() {
    let model = model(true, true);
    let mut state = FileManagerLocationsState::default();
    assert!(state.activate_location("/home/ayaz", &model));
    assert_eq!(state.origin, Some(FileManagerLocationOrigin::Location("/home/ayaz".to_string())));
    assert_eq!(
        state.highlighted_path(&model),
        Some("/home/ayaz"),
        "a deeper cwd is intentionally absent from this authority check"
    );
}

#[test]
fn fcl_origin_nested_favorite_wins_only_after_explicit_activation() {
    let model = model(true, true);
    let mut state = FileManagerLocationsState::default();
    assert!(state.activate_location("/home/ayaz", &model));
    assert_eq!(state.highlighted_path(&model), Some("/home/ayaz"));

    assert!(state.activate_location("/home/ayaz/projects/herdr", &model));
    assert_eq!(state.highlighted_path(&model), Some("/home/ayaz/projects/herdr"));
}

#[test]
fn fcl_origin_direct_path_never_infers_ancestor_highlight() {
    let model = model(true, true);
    let mut state = FileManagerLocationsState::default();

    state.activate_direct("/home/ayaz/projects".to_string());
    assert_eq!(state.highlighted_path(&model), None);

    state.activate_direct("/home/ayaz".to_string());
    assert_eq!(state.highlighted_path(&model), Some("/home/ayaz"));
}

#[test]
fn fcl_origin_invalid_model_and_close_retire_authority() {
    let live = model(true, true);
    let inaccessible = model(false, false);
    let mut state = FileManagerLocationsState::default();
    assert!(state.activate_location("/home/ayaz", &live));

    assert!(state.reconcile_model(&inaccessible));
    assert_eq!(state.origin, None);
    assert_eq!(state.highlighted_path(&inaccessible), None);

    assert!(state.activate_location("/home/ayaz", &live));
    state.retire_for_closed_files();
    assert_eq!(state.origin, None);
    assert_eq!(state.highlighted_path(&live), None);
}

#[test]
fn flf_model_line_identity_matches_render_section_law() {
    let model = FileManagerLocationsModel::from_sources(
        vec![item("/workspace", true), item("/missing", false)],
        vec![item("/pinned", true)],
        vec![item("/", true)],
    );

    assert_eq!(model.content_line_count(), 9);
    assert_eq!(model.line_index_for_path("/workspace"), Some(1));
    assert_eq!(model.line_index_for_path("/missing"), Some(2));
    assert_eq!(model.line_index_for_path("/pinned"), Some(5));
    assert_eq!(model.line_index_for_path("/"), Some(8));
    assert_eq!(model.line_index_for_path("/absent"), None);
}

#[test]
fn a_rail_scroll_is_clamped_to_the_content() {
    let mut state = FileManagerLocationsState::default();
    assert!(state.scroll_rail(5, 9, 4));
    assert_eq!(state.scroll, 5);
    assert!(!state.scroll_rail(3, 9, 4));
    assert_eq!(state.scroll, 5);
    assert!(state.scroll_rail(-10, 9, 4));
    assert_eq!(state.scroll, 0);
}

#[test]
fn the_drawer_opens_on_the_rail_and_restores_focus() {
    let mut state = FileManagerLocationsState::default();
    assert!(!state.drawer_is_open());
    assert!(state.open_drawer());
    assert!(state.drawer_is_open());
    assert_eq!(state.focus(), FileManagerLocationsFocus::Rail);
    assert!(!state.open_drawer());
    assert!(state.close_drawer());
    assert!(!state.drawer_is_open());
    assert_eq!(state.focus(), FileManagerLocationsFocus::Trail);
    assert!(!state.close_drawer());
}

#[test]
fn a_pending_root_matches_only_every_axis() {
    let mut state = FileManagerLocationsState::default();
    state.begin_load("/a".to_string(), 1, 2, 3);
    assert!(state.is_pending_root("/a", 1, 2, 3));
    assert!(!state.is_pending_root("/b", 1, 2, 3));
    assert!(!state.is_pending_root("/a", 9, 2, 3));
    assert!(!state.is_pending_root("/a", 1, 9, 3));
    assert!(!state.is_pending_root("/a", 1, 2, 9));
}
