use herdr_core::geometry::CellRect;
use herdr_core::miller::{
    begin_miller_resize_capture, commit_miller_resize, handle_miller_resize_key, horizontal_scroll_applies,
    horizontal_scroll_delta, miller_commit_gate, miller_resize_column_id, rect_contains,
    MillerAdjacentWidthTarget, MillerCapture, MillerColumnKind, MillerColumnView, MillerCommitGate,
    MillerDividerId, MillerDividerView, MillerKey, MillerKeyAction, MillerLayoutSnapshot,
    MillerResizeColumnId, ScrollKind, ScrollModifiers, ShellDirection, TrailingMinimum,
};

fn rect(x: u16, y: u16, width: u16, height: u16) -> CellRect {
    CellRect { x, y, width, height }
}

fn trail(index: usize, directory: &str, x: u16, width: u16) -> MillerColumnView {
    MillerColumnView {
        kind: MillerColumnKind::Trail { trail_index: index, directory: directory.into(), generation: 4 },
        projection_index: index,
        rect: rect(x, 0, width, 20),
    }
}

fn snapshot() -> MillerLayoutSnapshot {
    MillerLayoutSnapshot {
        files_generation: Some(7),
        model_revision: 3,
        dividers: vec![
            MillerDividerView { rect: rect(20, 0, 1, 20), left_column: 0, right_column: 1 },
            MillerDividerView { rect: rect(45, 0, 1, 20), left_column: 1, right_column: 2 },
        ],
        columns: vec![
            trail(0, "/a", 0, 20),
            trail(1, "/a/b", 21, 24),
            MillerColumnView {
                kind: MillerColumnKind::Detail {
                    parent_trail_index: 1,
                    source_path: "/a/b/c.txt".into(),
                    generation: 9,
                },
                projection_index: 2,
                rect: rect(46, 0, 30, 20),
            },
        ],
    }
}

#[test]
fn a_rect_contains_its_cells_only() {
    let r = rect(2, 3, 4, 5);
    assert!(rect_contains(r, 2, 3));
    assert!(rect_contains(r, 5, 7));
    assert!(!rect_contains(r, 6, 3));
    assert!(!rect_contains(r, 2, 8));
    assert!(!rect_contains(r, 1, 3));
    assert!(rect_contains(rect(u16::MAX - 1, 0, 10, 1), u16::MAX - 1, 0));
}

#[test]
fn a_press_on_a_divider_begins_a_resize_between_its_columns() {
    let capture = begin_miller_resize_capture(&snapshot(), Some(7), Some(3), 20, 5);
    assert_eq!(
        capture,
        MillerCapture::Begin {
            files_generation: 7,
            model_revision: 3,
            leading: MillerResizeColumnId::Directory { chain_index: 0, directory: "/a".into(), generation: 4 },
            trailing: MillerResizeColumnId::Directory { chain_index: 1, directory: "/a/b".into(), generation: 4 },
            leading_width: 20,
            trailing_width: 24,
        }
    );
    match begin_miller_resize_capture(&snapshot(), Some(7), Some(3), 45, 0) {
        MillerCapture::Begin { trailing, .. } => assert_eq!(
            trailing,
            MillerResizeColumnId::Preview {
                parent_chain_index: 1,
                source_path: Some("/a/b/c.txt".into()),
                generation: 9
            }
        ),
        other => panic!("expected a resize, got {other:?}"),
    }
}

#[test]
fn a_press_off_the_dividers_or_without_files_is_not_consumed() {
    assert_eq!(begin_miller_resize_capture(&snapshot(), Some(7), Some(3), 10, 5), MillerCapture::Miss);
    assert_eq!(begin_miller_resize_capture(&snapshot(), None, Some(3), 20, 5), MillerCapture::Miss);
}

#[test]
fn a_stale_or_ambiguous_press_is_consumed_without_effect() {
    assert_eq!(begin_miller_resize_capture(&snapshot(), Some(8), Some(3), 20, 5), MillerCapture::Inert);
    assert_eq!(begin_miller_resize_capture(&snapshot(), Some(7), Some(4), 20, 5), MillerCapture::Inert);
    assert_eq!(begin_miller_resize_capture(&snapshot(), Some(7), None, 20, 5), MillerCapture::Inert);
    let mut overlapping = snapshot();
    overlapping.dividers.push(MillerDividerView { rect: rect(19, 0, 3, 20), left_column: 0, right_column: 1 });
    assert_eq!(begin_miller_resize_capture(&overlapping, Some(7), Some(3), 20, 5), MillerCapture::Inert);
    let mut gapped = snapshot();
    gapped.columns[1].projection_index = 5;
    assert_eq!(begin_miller_resize_capture(&gapped, Some(7), Some(3), 20, 5), MillerCapture::Inert);
    let mut dangling = snapshot();
    dangling.dividers[0].right_column = 9;
    assert_eq!(begin_miller_resize_capture(&dangling, Some(7), Some(3), 20, 5), MillerCapture::Inert);
}

#[test]
fn a_column_id_follows_its_kind() {
    let column = trail(2, "/x", 0, 10);
    assert_eq!(
        miller_resize_column_id(&column),
        Some(MillerResizeColumnId::Directory { chain_index: 2, directory: "/x".into(), generation: 4 })
    );
}

fn divider(trailing: MillerResizeColumnId) -> MillerDividerId {
    MillerDividerId {
        files_generation: 7,
        model_revision: 3,
        leading: MillerResizeColumnId::Directory { chain_index: 0, directory: "/a".into(), generation: 4 },
        trailing,
        axis: ShellDirection::Horizontal,
    }
}

#[test]
fn a_commit_is_gated_on_the_model_revision() {
    let d = divider(MillerResizeColumnId::Preview { parent_chain_index: 1, source_path: None, generation: 1 });
    assert_eq!(miller_commit_gate(None, Some(3)), MillerCommitGate::Nothing);
    assert_eq!(miller_commit_gate(Some(&d), None), MillerCommitGate::Nothing);
    assert_eq!(miller_commit_gate(Some(&d), Some(4)), MillerCommitGate::Cancel);
    assert_eq!(miller_commit_gate(Some(&d), Some(3)), MillerCommitGate::Commit);
}

#[test]
fn a_commit_writes_both_widths_under_a_live_identity() {
    let d = divider(MillerResizeColumnId::Directory { chain_index: 1, directory: "/a/b".into(), generation: 4 });
    let plan = commit_miller_resize(&d, Some((22, 18)), Some(7), 3, true, true).expect("committed");
    assert_eq!(plan.leading_directory, "/a");
    assert_eq!((plan.leading_width, plan.trailing_width), (22, 18));
    assert_eq!(plan.trailing, MillerAdjacentWidthTarget::Directory("/a/b".into()));

    let to_preview = divider(MillerResizeColumnId::Preview { parent_chain_index: 1, source_path: None, generation: 1 });
    let plan = commit_miller_resize(&to_preview, Some((22, 18)), Some(7), 3, true, true).expect("committed");
    assert_eq!(plan.trailing, MillerAdjacentWidthTarget::Preview);
}

#[test]
fn a_commit_under_a_stale_or_dead_identity_writes_nothing() {
    let d = divider(MillerResizeColumnId::Directory { chain_index: 1, directory: "/a/b".into(), generation: 4 });
    assert_eq!(commit_miller_resize(&d, None, Some(7), 3, true, true), None);
    assert_eq!(commit_miller_resize(&d, Some((1, 1)), None, 3, true, true), None);
    assert_eq!(commit_miller_resize(&d, Some((1, 1)), Some(8), 3, true, true), None);
    assert_eq!(commit_miller_resize(&d, Some((1, 1)), Some(7), 4, true, true), None);
    assert_eq!(commit_miller_resize(&d, Some((1, 1)), Some(7), 3, false, true), None);
    assert_eq!(commit_miller_resize(&d, Some((1, 1)), Some(7), 3, true, false), None);
    let mut vertical = divider(MillerResizeColumnId::Directory { chain_index: 1, directory: "/a/b".into(), generation: 4 });
    vertical.axis = ShellDirection::Vertical;
    assert_eq!(commit_miller_resize(&vertical, Some((1, 1)), Some(7), 3, true, true), None);
    let from_preview = MillerDividerId {
        leading: MillerResizeColumnId::Preview { parent_chain_index: 0, source_path: None, generation: 1 },
        ..divider(MillerResizeColumnId::Directory { chain_index: 1, directory: "/a/b".into(), generation: 4 })
    };
    assert_eq!(commit_miller_resize(&from_preview, Some((1, 1)), Some(7), 3, true, true), None);
    let gapped = divider(MillerResizeColumnId::Directory { chain_index: 3, directory: "/a/b".into(), generation: 4 });
    assert_eq!(commit_miller_resize(&gapped, Some((1, 1)), Some(7), 3, true, true), None);
}

#[test]
fn resize_keys_step_commit_cancel_or_swallow() {
    let preview = MillerResizeColumnId::Preview { parent_chain_index: 1, source_path: None, generation: 1 };
    assert_eq!(handle_miller_resize_key(false, MillerKey::Right, None), MillerKeyAction::Ignored);
    assert_eq!(
        handle_miller_resize_key(true, MillerKey::Right, None),
        MillerKeyAction::Step { delta: 1, trailing_min: TrailingMinimum::Column }
    );
    assert_eq!(
        handle_miller_resize_key(true, MillerKey::Char('h'), Some(&preview)),
        MillerKeyAction::Step { delta: -1, trailing_min: TrailingMinimum::Detail }
    );
    assert_eq!(
        handle_miller_resize_key(true, MillerKey::Char('l'), None),
        MillerKeyAction::Step { delta: 1, trailing_min: TrailingMinimum::Column }
    );
    assert_eq!(handle_miller_resize_key(true, MillerKey::Enter, None), MillerKeyAction::Commit);
    assert_eq!(handle_miller_resize_key(true, MillerKey::Esc, None), MillerKeyAction::Cancel);
    assert_eq!(handle_miller_resize_key(true, MillerKey::Char('x'), None), MillerKeyAction::Swallowed);
    assert_eq!(handle_miller_resize_key(true, MillerKey::Other, None), MillerKeyAction::Swallowed);
}

#[test]
fn sideways_wheels_and_shifted_vertical_wheels_scroll_the_trail() {
    assert_eq!(horizontal_scroll_delta(ScrollKind::Left, ScrollModifiers::Plain), Some(-1));
    assert_eq!(horizontal_scroll_delta(ScrollKind::Up, ScrollModifiers::Shift), Some(-1));
    assert_eq!(horizontal_scroll_delta(ScrollKind::Right, ScrollModifiers::Plain), Some(1));
    assert_eq!(horizontal_scroll_delta(ScrollKind::Down, ScrollModifiers::Shift), Some(1));
    assert_eq!(horizontal_scroll_delta(ScrollKind::Up, ScrollModifiers::Plain), None);
    assert_eq!(horizontal_scroll_delta(ScrollKind::Left, ScrollModifiers::Shift), None);
    assert_eq!(horizontal_scroll_delta(ScrollKind::Right, ScrollModifiers::Other), None);
    assert!(horizontal_scroll_applies(Some(2), Some(2)));
    assert!(!horizontal_scroll_applies(Some(2), Some(3)));
    assert!(horizontal_scroll_applies(None, None));
}
