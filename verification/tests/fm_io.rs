use herdr_core::fm_io::{
    io_verdict, location_load_error, Completion, FileManagerIoIdentity, FileManagerIoRequest,
    FileManagerIoSource, FileManagerIoSubmit, IoHandle, IoResult, IoShared, IoVerdict,
    NavigationRequest, RootNavigationError, RootNavigationRequest, TakeNext,
};
use herdr_core::locations::FileManagerLocationLoadError;

fn root_request(files_generation: u32, revision: u64, target: &str) -> FileManagerIoRequest<()> {
    FileManagerIoRequest::Root(RootNavigationRequest {
        files_generation,
        location_model_revision: revision,
        target_root: target.to_string(),
        show_hidden: false,
    })
}

#[test]
fn fcl_io_result_rejects_every_stale_identity_axis() {
    let source = FileManagerIoSource {
        directory: "/root/current".to_string(),
        directory_generation: 13,
        preview_generation: 17,
        miller_revision: 19,
        show_hidden: false,
    };
    let identity = FileManagerIoIdentity::Root {
        files_generation: 5,
        location_model_revision: 23,
        target_root: "/root".to_string(),
    };

    assert!(identity.is_current(5, 23, Some(&source)));
    assert!(!identity.is_current(6, 23, Some(&source)));
    assert!(!identity.is_current(5, 24, Some(&source)));

    let navigation = FileManagerIoIdentity::Navigation {
        files_generation: 5,
        source: source.clone(),
        target_directory: "/root/current/child".to_string(),
    };
    assert!(navigation.is_current(5, 23, Some(&source)));
    let mut changed_source = source;
    changed_source.miller_revision += 1;
    assert!(!navigation.is_current(5, 23, Some(&changed_source)));
}

#[test]
fn a_source_bound_identity_needs_a_source() {
    let source = FileManagerIoSource {
        directory: "/a".to_string(),
        directory_generation: 1,
        preview_generation: 2,
        miller_revision: 3,
        show_hidden: true,
    };
    let refresh = FileManagerIoIdentity::Refresh { files_generation: 1, source: source.clone() };
    assert!(refresh.is_current(1, 0, Some(&source)));
    assert!(!refresh.is_current(1, 0, None), "no file manager, no currency");
    let mut moved = source.clone();
    moved.directory = "/b".to_string();
    assert!(!refresh.is_current(1, 0, Some(&moved)));
    assert_eq!(refresh.target_path(), "/a");
}

#[test]
fn a_request_carries_exactly_its_captured_identity() {
    let request: FileManagerIoRequest<()> = FileManagerIoRequest::Navigate {
        files_generation: 9,
        request: NavigationRequest {
            source_directory: "/src".to_string(),
            source_directory_generation: 4,
            source_preview_generation: 5,
            source_miller_revision: 6,
            show_hidden: true,
            target_directory: "/src/child".to_string(),
        },
    };
    let identity = request.identity();
    assert_eq!(identity.target_path(), "/src/child");
    let source = FileManagerIoSource {
        directory: "/src".to_string(),
        directory_generation: 4,
        preview_generation: 5,
        miller_revision: 6,
        show_hidden: true,
    };
    assert!(identity.is_current(9, 0, Some(&source)));
    assert!(!request.is_root());
    assert!(root_request(1, 1, "/r").identity().is_root());
}

#[test]
fn fcl_io_worker_keeps_only_latest_pending_request() {
    let mut shared: IoShared<FileManagerIoRequest<()>, &str> = IoShared::new();
    let mut handle = IoHandle::new();
    assert_eq!(
        handle.submit(&mut shared, root_request(1, 1, "/one")),
        FileManagerIoSubmit::Accepted { generation: 1, replaced_pending: false }
    );
    let executing = match shared.take_next() {
        TakeNext::Work(work) => work,
        other => panic!("expected work, got {other:?}"),
    };
    assert_eq!(executing.generation, 1);
    assert_eq!(
        handle.submit(&mut shared, root_request(1, 1, "/two")),
        FileManagerIoSubmit::Accepted { generation: 2, replaced_pending: false }
    );
    assert_eq!(
        handle.submit(&mut shared, root_request(1, 1, "/three")),
        FileManagerIoSubmit::Accepted { generation: 3, replaced_pending: true }
    );
    let identity = executing.request.identity();
    assert_eq!(
        shared.complete(IoResult { generation: 1, identity, outcome: "one" }),
        Completion::Dropped { stale_root: true },
        "the first ticket is no longer the latest"
    );
    let next = match shared.take_next() {
        TakeNext::Work(work) => work,
        other => panic!("expected work, got {other:?}"),
    };
    assert_eq!(next.generation, 3);
    assert_eq!(next.request.identity().target_path(), "/three");
    assert!(matches!(shared.take_next(), TakeNext::Wait));
    let identity = next.request.identity();
    assert_eq!(
        shared.complete(IoResult { generation: 3, identity, outcome: "three" }),
        Completion::Stored
    );
    let drain = handle.drain(&mut shared);
    let result = drain.current.expect("the latest result");
    assert_eq!(result.generation, 3);
    assert_eq!(result.outcome, "three");
    assert!(!drain.disconnected);
    assert!(handle.drain(&mut shared).current.is_none(), "a result is handed over once");
}

#[test]
fn a_dead_worker_is_reported_once_and_refuses_submissions() {
    let mut shared: IoShared<FileManagerIoRequest<()>, ()> = IoShared::new();
    let mut handle = IoHandle::new();
    shared.mark_dead();
    assert_eq!(
        handle.submit(&mut shared, root_request(1, 1, "/x")),
        FileManagerIoSubmit::Disconnected
    );
    assert!(handle.drain(&mut shared).disconnected);
    assert!(!handle.drain(&mut shared).disconnected, "reported once");
    shared.close();
    assert!(matches!(shared.take_next(), TakeNext::Closed));
}

#[test]
fn a_closed_lane_stops_the_worker_and_drops_results() {
    let mut shared: IoShared<FileManagerIoRequest<()>, u8> = IoShared::new();
    let mut handle = IoHandle::new();
    handle.submit(&mut shared, root_request(1, 1, "/x"));
    shared.close();
    assert!(shared.pending.is_none());
    let identity = root_request(1, 1, "/x").identity();
    assert_eq!(shared.complete(IoResult { generation: 1, identity, outcome: 0 }), Completion::Closed);
    assert!(!handle.drain(&mut shared).disconnected, "closing is not a death");
}

#[test]
fn tickets_wrap_past_the_top_without_reaching_zero() {
    let mut shared: IoShared<FileManagerIoRequest<()>, ()> = IoShared::new();
    let mut handle = IoHandle::new();
    handle.latest_generation = u64::MAX;
    assert_eq!(
        handle.submit(&mut shared, root_request(1, 1, "/x")),
        FileManagerIoSubmit::Accepted { generation: 1, replaced_pending: false }
    );
}

#[test]
fn the_verdict_checks_every_gate_in_order() {
    let root = FileManagerIoIdentity::Root {
        files_generation: 2,
        location_model_revision: 7,
        target_root: "/r".to_string(),
    };
    assert_eq!(io_verdict(true, Some(&root), Some(2), 7, None, true, true), IoVerdict::Recover);
    assert_eq!(io_verdict(false, None, Some(2), 7, None, true, true), IoVerdict::Idle);
    assert_eq!(
        io_verdict(false, Some(&root), None, 7, None, true, true),
        IoVerdict::Reject { stale_root: true }
    );
    assert_eq!(
        io_verdict(false, Some(&root), Some(3), 7, None, true, true),
        IoVerdict::Reject { stale_root: true }
    );
    assert_eq!(
        io_verdict(false, Some(&root), Some(2), 7, None, false, true),
        IoVerdict::Reject { stale_root: true },
        "a root that is no longer pending is stale"
    );
    assert_eq!(io_verdict(false, Some(&root), Some(2), 7, None, true, true), IoVerdict::Apply);
    let source = FileManagerIoSource {
        directory: "/d".to_string(),
        directory_generation: 0,
        preview_generation: 0,
        miller_revision: 0,
        show_hidden: false,
    };
    let refresh = FileManagerIoIdentity::Refresh { files_generation: 2, source: source.clone() };
    assert_eq!(
        io_verdict(false, Some(&refresh), Some(2), 0, None, false, false),
        IoVerdict::Reject { stale_root: false }
    );
    assert_eq!(
        io_verdict(false, Some(&refresh), Some(2), 0, Some(&source), false, false),
        IoVerdict::Apply,
        "the root gates do not apply to other requests"
    );
}

#[test]
fn root_errors_keep_their_names() {
    assert_eq!(location_load_error(RootNavigationError::Missing), FileManagerLocationLoadError::Missing);
    assert_eq!(
        location_load_error(RootNavigationError::PermissionDenied),
        FileManagerLocationLoadError::PermissionDenied
    );
    assert_eq!(
        location_load_error(RootNavigationError::ChangedType),
        FileManagerLocationLoadError::ChangedType
    );
    assert_eq!(
        location_load_error(RootNavigationError::Unavailable),
        FileManagerLocationLoadError::Unavailable
    );
}
