//! The file manager's bounded I/O lane: requests carry the identity of the
//! world they were made for, the lane keeps one executing and at most one
//! pending request (the latest), and a result is applied only while every
//! captured identity is still current.
//!
//! The lane's bookkeeping lives here as two plain state machines: the part
//! the worker and the application share (behind whatever lock the caller
//! uses) and the handle the application keeps. Threads, locks and wakeups
//! belong to the caller.

use vstd::prelude::*;

use crate::locations::{live_cursor, FileManagerLocationLoadError, FileManagerLocationsFocus, FileManagerLocationsState};
use crate::locations_model::FileManagerLocationsModel;
use crate::rail::item_of;
use crate::paths::{path_key, same_path};

verus! {

/// The file manager state a request was made from.
#[derive(Debug)]
pub struct FileManagerIoSource {
    pub directory: String,
    pub directory_generation: u64,
    pub preview_generation: u64,
    pub miller_revision: u64,
    pub show_hidden: bool,
}

/// A source, as plain values; its directory by path identity.
pub struct SourceView {
    pub directory: Seq<char>,
    pub directory_generation: u64,
    pub preview_generation: u64,
    pub miller_revision: u64,
    pub show_hidden: bool,
}

impl View for FileManagerIoSource {
    type V = SourceView;

    open spec fn view(&self) -> SourceView {
        SourceView {
            directory: path_key(self.directory@),
            directory_generation: self.directory_generation,
            preview_generation: self.preview_generation,
            miller_revision: self.miller_revision,
            show_hidden: self.show_hidden,
        }
    }
}

impl Clone for FileManagerIoSource {
    fn clone(&self) -> (r: Self)
        ensures
            r@ == self@,
    {
        FileManagerIoSource {
            directory: self.directory.clone(),
            directory_generation: self.directory_generation,
            preview_generation: self.preview_generation,
            miller_revision: self.miller_revision,
            show_hidden: self.show_hidden,
        }
    }
}

impl FileManagerIoSource {
    /// Whether two sources name the same state on every axis.
    pub fn same_as(&self, other: &FileManagerIoSource) -> (r: bool)
        ensures
            r == (self@ == other@),
    {
        same_path(self.directory.as_str(), other.directory.as_str())
            && self.directory_generation == other.directory_generation
            && self.preview_generation == other.preview_generation
            && self.miller_revision == other.miller_revision
            && self.show_hidden == other.show_hidden
    }
}

/// Where a trail activation leaves the cursor.
#[derive(Debug, Clone, Copy, PartialEq, Eq, Structural)]
pub enum FileManagerTrailDestinationPolicy {
    FocusFirstActionable,
    PreserveMouseSelection,
}

/// The world a request was made for: which Files instance, which
/// location-model revision or source state, and what it targets.
#[derive(Debug)]
pub enum FileManagerIoIdentity {
    Root { files_generation: u32, location_model_revision: u64, target_root: String },
    Navigation { files_generation: u32, source: FileManagerIoSource, target_directory: String },
    Refresh { files_generation: u32, source: FileManagerIoSource },
    TrailRefresh { files_generation: u32, source: FileManagerIoSource, expected_directory: String },
    TrailPreview {
        files_generation: u32,
        source: FileManagerIoSource,
        trail_col: usize,
        entry_index: usize,
        expected_path: String,
    },
    TrailActivate {
        files_generation: u32,
        source: FileManagerIoSource,
        trail_col: usize,
        entry_index: usize,
        expected_path: String,
        destination_policy: FileManagerTrailDestinationPolicy,
    },
}

/// An identity, as plain values; its paths by path identity.
pub enum IdentityView {
    Root { files_generation: u32, location_model_revision: u64, target_root: Seq<char> },
    Navigation { files_generation: u32, source: SourceView, target_directory: Seq<char> },
    Refresh { files_generation: u32, source: SourceView },
    TrailRefresh { files_generation: u32, source: SourceView, expected_directory: Seq<char> },
    TrailPreview {
        files_generation: u32,
        source: SourceView,
        trail_col: usize,
        entry_index: usize,
        expected_path: Seq<char>,
    },
    TrailActivate {
        files_generation: u32,
        source: SourceView,
        trail_col: usize,
        entry_index: usize,
        expected_path: Seq<char>,
        destination_policy: FileManagerTrailDestinationPolicy,
    },
}

impl View for FileManagerIoIdentity {
    type V = IdentityView;

    open spec fn view(&self) -> IdentityView {
        match self {
            FileManagerIoIdentity::Root { files_generation, location_model_revision, target_root } => IdentityView::Root {
                files_generation: *files_generation,
                location_model_revision: *location_model_revision,
                target_root: path_key(target_root@),
            },
            FileManagerIoIdentity::Navigation { files_generation, source, target_directory } => IdentityView::Navigation {
                files_generation: *files_generation,
                source: source@,
                target_directory: path_key(target_directory@),
            },
            FileManagerIoIdentity::Refresh { files_generation, source } => IdentityView::Refresh {
                files_generation: *files_generation,
                source: source@,
            },
            FileManagerIoIdentity::TrailRefresh { files_generation, source, expected_directory } => IdentityView::TrailRefresh {
                files_generation: *files_generation,
                source: source@,
                expected_directory: path_key(expected_directory@),
            },
            FileManagerIoIdentity::TrailPreview { files_generation, source, trail_col, entry_index, expected_path } => IdentityView::TrailPreview {
                files_generation: *files_generation,
                source: source@,
                trail_col: *trail_col,
                entry_index: *entry_index,
                expected_path: path_key(expected_path@),
            },
            FileManagerIoIdentity::TrailActivate {
                files_generation,
                source,
                trail_col,
                entry_index,
                expected_path,
                destination_policy,
            } => IdentityView::TrailActivate {
                files_generation: *files_generation,
                source: source@,
                trail_col: *trail_col,
                entry_index: *entry_index,
                expected_path: path_key(expected_path@),
                destination_policy: *destination_policy,
            },
        }
    }
}

/// Whether an identity still describes the world: a root load needs the
/// same Files instance and location-model revision; everything else the
/// same Files instance and exactly the source it was made from.
pub open spec fn identity_is_current(
    id: IdentityView,
    files_generation: u32,
    location_model_revision: u64,
    source: Option<SourceView>,
) -> bool {
    match id {
        IdentityView::Root { files_generation: g, location_model_revision: m, .. } => g == files_generation
            && m == location_model_revision,
        IdentityView::Navigation { files_generation: g, source: s, .. } => g == files_generation && source == Some(s),
        IdentityView::Refresh { files_generation: g, source: s } => g == files_generation && source == Some(s),
        IdentityView::TrailRefresh { files_generation: g, source: s, .. } => g == files_generation && source == Some(s),
        IdentityView::TrailPreview { files_generation: g, source: s, .. } => g == files_generation && source == Some(s),
        IdentityView::TrailActivate { files_generation: g, source: s, .. } => g == files_generation && source == Some(s),
    }
}

/// The path a request targets.
pub open spec fn identity_target(id: IdentityView) -> Seq<char> {
    match id {
        IdentityView::Root { target_root, .. } => target_root,
        IdentityView::Navigation { target_directory, .. } => target_directory,
        IdentityView::Refresh { source, .. } => source.directory,
        IdentityView::TrailRefresh { expected_directory, .. } => expected_directory,
        IdentityView::TrailPreview { expected_path, .. } => expected_path,
        IdentityView::TrailActivate { expected_path, .. } => expected_path,
    }
}

pub open spec fn opt_source(s: Option<&FileManagerIoSource>) -> Option<SourceView> {
    match s {
        Some(x) => Some(x@),
        None => None,
    }
}

impl FileManagerIoIdentity {
    /// The path the request targets.
    pub fn target_path(&self) -> (r: &str)
        ensures
            path_key(r@) == identity_target(self@),
    {
        match self {
            FileManagerIoIdentity::Root { target_root, .. } => target_root.as_str(),
            FileManagerIoIdentity::Navigation { target_directory, .. } => target_directory.as_str(),
            FileManagerIoIdentity::Refresh { source, .. } => source.directory.as_str(),
            FileManagerIoIdentity::TrailRefresh { expected_directory, .. } => expected_directory.as_str(),
            FileManagerIoIdentity::TrailPreview { expected_path, .. } => expected_path.as_str(),
            FileManagerIoIdentity::TrailActivate { expected_path, .. } => expected_path.as_str(),
        }
    }

    /// Whether the identity still describes the world the caller sees.
    pub fn is_current(&self, files_generation: u32, location_model_revision: u64, source: Option<&FileManagerIoSource>) -> (r: bool)
        ensures
            r == identity_is_current(self@, files_generation, location_model_revision, opt_source(source)),
    {
        match self {
            FileManagerIoIdentity::Root { files_generation: g, location_model_revision: m, .. } => {
                *g == files_generation && *m == location_model_revision
            },
            FileManagerIoIdentity::Navigation { files_generation: g, source: s, .. }
            | FileManagerIoIdentity::Refresh { files_generation: g, source: s }
            | FileManagerIoIdentity::TrailRefresh { files_generation: g, source: s, .. }
            | FileManagerIoIdentity::TrailPreview { files_generation: g, source: s, .. }
            | FileManagerIoIdentity::TrailActivate { files_generation: g, source: s, .. } => {
                *g == files_generation && match source {
                    Some(current) => current.same_as(s),
                    None => false,
                }
            },
        }
    }

    /// Whether two identities name the same request on every axis.
    pub fn same_identity(&self, other: &FileManagerIoIdentity) -> (r: bool)
        ensures
            r == (self@ == other@),
    {
        match (self, other) {
            (
                FileManagerIoIdentity::Root { files_generation: g1, location_model_revision: m1, target_root: t1 },
                FileManagerIoIdentity::Root { files_generation: g2, location_model_revision: m2, target_root: t2 },
            ) => *g1 == *g2 && *m1 == *m2 && same_path(t1.as_str(), t2.as_str()),
            (
                FileManagerIoIdentity::Navigation { files_generation: g1, source: s1, target_directory: t1 },
                FileManagerIoIdentity::Navigation { files_generation: g2, source: s2, target_directory: t2 },
            ) => *g1 == *g2 && s1.same_as(s2) && same_path(t1.as_str(), t2.as_str()),
            (
                FileManagerIoIdentity::Refresh { files_generation: g1, source: s1 },
                FileManagerIoIdentity::Refresh { files_generation: g2, source: s2 },
            ) => *g1 == *g2 && s1.same_as(s2),
            (
                FileManagerIoIdentity::TrailRefresh { files_generation: g1, source: s1, expected_directory: t1 },
                FileManagerIoIdentity::TrailRefresh { files_generation: g2, source: s2, expected_directory: t2 },
            ) => *g1 == *g2 && s1.same_as(s2) && same_path(t1.as_str(), t2.as_str()),
            (
                FileManagerIoIdentity::TrailPreview { files_generation: g1, source: s1, trail_col: c1, entry_index: i1, expected_path: p1 },
                FileManagerIoIdentity::TrailPreview { files_generation: g2, source: s2, trail_col: c2, entry_index: i2, expected_path: p2 },
            ) => *g1 == *g2 && s1.same_as(s2) && *c1 == *c2 && *i1 == *i2 && same_path(p1.as_str(), p2.as_str()),
            (
                FileManagerIoIdentity::TrailActivate {
                    files_generation: g1,
                    source: s1,
                    trail_col: c1,
                    entry_index: i1,
                    expected_path: p1,
                    destination_policy: d1,
                },
                FileManagerIoIdentity::TrailActivate {
                    files_generation: g2,
                    source: s2,
                    trail_col: c2,
                    entry_index: i2,
                    expected_path: p2,
                    destination_policy: d2,
                },
            ) => *g1 == *g2 && s1.same_as(s2) && *c1 == *c2 && *i1 == *i2 && same_path(p1.as_str(), p2.as_str())
                && *d1 == *d2,
            _ => false,
        }
    }

    /// Whether this is a root load's identity.
    pub fn is_root(&self) -> (r: bool)
        ensures
            r == (self@ is Root),
    {
        match self {
            FileManagerIoIdentity::Root { .. } => true,
            _ => false,
        }
    }
}

/// A request to load a location as the new trail root.
#[derive(Debug)]
pub struct RootNavigationRequest {
    pub files_generation: u32,
    pub location_model_revision: u64,
    pub target_root: String,
    pub show_hidden: bool,
}

/// A request to navigate from the current directory to another.
#[derive(Debug)]
pub struct NavigationRequest {
    pub source_directory: String,
    pub source_directory_generation: u64,
    pub source_preview_generation: u64,
    pub source_miller_revision: u64,
    pub show_hidden: bool,
    pub target_directory: String,
}

/// A request to re-read the current directory.
#[derive(Debug)]
pub struct CurrentRefreshRequest {
    pub files_generation: u32,
    pub source_directory: String,
    pub source_directory_generation: u64,
    pub source_preview_generation: u64,
    pub source_miller_revision: u64,
    pub source_show_hidden: bool,
}

/// One unit of work for the lane. The trail requests carry the file
/// manager snapshot `S` the worker prepares its answer on.
#[derive(Debug)]
pub enum FileManagerIoRequest<S> {
    Root(RootNavigationRequest),
    Navigate { files_generation: u32, request: NavigationRequest },
    Refresh(CurrentRefreshRequest),
    TrailRefresh { files_generation: u32, source: FileManagerIoSource, expected_directory: String, file_manager: S },
    TrailPreview {
        files_generation: u32,
        source: FileManagerIoSource,
        trail_col: usize,
        entry_index: usize,
        expected_path: String,
        file_manager: S,
    },
    TrailActivate {
        files_generation: u32,
        source: FileManagerIoSource,
        trail_col: usize,
        entry_index: usize,
        expected_path: String,
        destination_policy: FileManagerTrailDestinationPolicy,
        file_manager: S,
    },
}

/// The identity a request carries: exactly the captured fields, each in its
/// own place.
pub open spec fn request_identity<S>(r: FileManagerIoRequest<S>) -> IdentityView {
    match r {
        FileManagerIoRequest::Root(q) => IdentityView::Root {
            files_generation: q.files_generation,
            location_model_revision: q.location_model_revision,
            target_root: path_key(q.target_root@),
        },
        FileManagerIoRequest::Navigate { files_generation, request } => IdentityView::Navigation {
            files_generation,
            source: SourceView {
                directory: path_key(request.source_directory@),
                directory_generation: request.source_directory_generation,
                preview_generation: request.source_preview_generation,
                miller_revision: request.source_miller_revision,
                show_hidden: request.show_hidden,
            },
            target_directory: path_key(request.target_directory@),
        },
        FileManagerIoRequest::Refresh(q) => IdentityView::Refresh {
            files_generation: q.files_generation,
            source: SourceView {
                directory: path_key(q.source_directory@),
                directory_generation: q.source_directory_generation,
                preview_generation: q.source_preview_generation,
                miller_revision: q.source_miller_revision,
                show_hidden: q.source_show_hidden,
            },
        },
        FileManagerIoRequest::TrailRefresh { files_generation, source, expected_directory, .. } => IdentityView::TrailRefresh {
            files_generation,
            source: source@,
            expected_directory: path_key(expected_directory@),
        },
        FileManagerIoRequest::TrailPreview { files_generation, source, trail_col, entry_index, expected_path, .. } => IdentityView::TrailPreview {
            files_generation,
            source: source@,
            trail_col,
            entry_index,
            expected_path: path_key(expected_path@),
        },
        FileManagerIoRequest::TrailActivate {
            files_generation,
            source,
            trail_col,
            entry_index,
            expected_path,
            destination_policy,
            ..
        } => IdentityView::TrailActivate {
            files_generation,
            source: source@,
            trail_col,
            entry_index,
            expected_path: path_key(expected_path@),
            destination_policy,
        },
    }
}

impl<S> FileManagerIoRequest<S> {
    /// The identity the request carries.
    pub fn identity(&self) -> (r: FileManagerIoIdentity)
        ensures
            r@ == request_identity(*self),
    {
        match self {
            FileManagerIoRequest::Root(q) => FileManagerIoIdentity::Root {
                files_generation: q.files_generation,
                location_model_revision: q.location_model_revision,
                target_root: q.target_root.clone(),
            },
            FileManagerIoRequest::Navigate { files_generation, request } => FileManagerIoIdentity::Navigation {
                files_generation: *files_generation,
                source: FileManagerIoSource {
                    directory: request.source_directory.clone(),
                    directory_generation: request.source_directory_generation,
                    preview_generation: request.source_preview_generation,
                    miller_revision: request.source_miller_revision,
                    show_hidden: request.show_hidden,
                },
                target_directory: request.target_directory.clone(),
            },
            FileManagerIoRequest::Refresh(q) => FileManagerIoIdentity::Refresh {
                files_generation: q.files_generation,
                source: FileManagerIoSource {
                    directory: q.source_directory.clone(),
                    directory_generation: q.source_directory_generation,
                    preview_generation: q.source_preview_generation,
                    miller_revision: q.source_miller_revision,
                    show_hidden: q.source_show_hidden,
                },
            },
            FileManagerIoRequest::TrailRefresh { files_generation, source, expected_directory, .. } => FileManagerIoIdentity::TrailRefresh {
                files_generation: *files_generation,
                source: source.clone(),
                expected_directory: expected_directory.clone(),
            },
            FileManagerIoRequest::TrailPreview { files_generation, source, trail_col, entry_index, expected_path, .. } => FileManagerIoIdentity::TrailPreview {
                files_generation: *files_generation,
                source: source.clone(),
                trail_col: *trail_col,
                entry_index: *entry_index,
                expected_path: expected_path.clone(),
            },
            FileManagerIoRequest::TrailActivate {
                files_generation,
                source,
                trail_col,
                entry_index,
                expected_path,
                destination_policy,
                ..
            } => FileManagerIoIdentity::TrailActivate {
                files_generation: *files_generation,
                source: source.clone(),
                trail_col: *trail_col,
                entry_index: *entry_index,
                expected_path: expected_path.clone(),
                destination_policy: *destination_policy,
            },
        }
    }

    /// Whether this is a root load.
    pub fn is_root(&self) -> (r: bool)
        ensures
            r == (*self is Root),
    {
        match self {
            FileManagerIoRequest::Root(_) => true,
            _ => false,
        }
    }
}

/// Why a root load could not prepare its trail.
#[derive(Debug, Clone, Copy, PartialEq, Eq, Structural)]
pub enum RootNavigationError {
    Missing,
    PermissionDenied,
    ChangedType,
    Unavailable,
}

/// The locations state's word for a root load's failure: each reason keeps
/// its own name.
pub open spec fn load_error_of(error: RootNavigationError) -> FileManagerLocationLoadError {
    match error {
        RootNavigationError::Missing => FileManagerLocationLoadError::Missing,
        RootNavigationError::PermissionDenied => FileManagerLocationLoadError::PermissionDenied,
        RootNavigationError::ChangedType => FileManagerLocationLoadError::ChangedType,
        RootNavigationError::Unavailable => FileManagerLocationLoadError::Unavailable,
    }
}

/// The locations state's word for a root load's failure.
pub fn location_load_error(error: RootNavigationError) -> (r: FileManagerLocationLoadError)
    ensures
        r == load_error_of(error),
{
    match error {
        RootNavigationError::Missing => FileManagerLocationLoadError::Missing,
        RootNavigationError::PermissionDenied => FileManagerLocationLoadError::PermissionDenied,
        RootNavigationError::ChangedType => FileManagerLocationLoadError::ChangedType,
        RootNavigationError::Unavailable => FileManagerLocationLoadError::Unavailable,
    }
}

/// A ticketed request waiting for the worker.
#[derive(Debug)]
pub struct IoWork<W> {
    pub generation: u64,
    pub request: W,
}

/// A finished request: its ticket, the identity it was made for, and what
/// the worker prepared.
#[derive(Debug)]
pub struct IoResult<R> {
    pub generation: u64,
    pub identity: FileManagerIoIdentity,
    pub outcome: R,
}

/// What the worker and the application share: at most one pending request,
/// at most one ready result, the latest ticket, and whether the worker is
/// alive and the lane open.
#[derive(Debug)]
pub struct IoShared<W, R> {
    pub pending: Option<IoWork<W>>,
    pub result: Option<IoResult<R>>,
    pub latest_generation: u64,
    pub alive: bool,
    pub closed: bool,
}

impl<W, R> IoShared<W, R> {
    /// A fresh lane: nothing pending, nothing ready, the worker alive.
    pub fn new() -> (r: Self)
        ensures
            r.pending is None,
            r.result is None,
            r.latest_generation == 0,
            r.alive,
            !r.closed,
    {
        IoShared { pending: None, result: None, latest_generation: 0, alive: true, closed: false }
    }
}

/// What the worker finds when it looks for work.
#[derive(Debug)]
pub enum TakeNext<W> {
    /// Nothing pending yet; wait for a change.
    Wait,
    /// The lane is closed; stop.
    Closed,
    /// The latest request, now taken off the slot.
    Work(IoWork<W>),
}

/// What happened to a finished result.
#[derive(Debug, Clone, Copy, PartialEq, Eq, Structural)]
pub enum Completion {
    /// The lane closed meanwhile; stop.
    Closed,
    /// The result is the latest ticket's and is now ready.
    Stored,
    /// A newer ticket exists; the result is dropped (`stale_root` when it
    /// was a root load).
    Dropped { stale_root: bool },
}

impl<W, R> IoShared<W, R> {
    /// The worker's look for work: a closed lane stops it, an empty slot
    /// makes it wait, else it takes the pending request.
    pub fn take_next(&mut self) -> (r: TakeNext<W>)
        ensures
            old(self).closed ==> r is Closed && *final(self) == *old(self),
            !old(self).closed && old(self).pending is None ==> r is Wait && *final(self) == *old(self),
            !old(self).closed && old(self).pending is Some ==> r == TakeNext::Work(old(self).pending->0)
                && final(self).pending is None && final(self).result == old(self).result
                && final(self).latest_generation == old(self).latest_generation
                && final(self).alive == old(self).alive && final(self).closed == old(self).closed,
    {
        if self.closed {
            return TakeNext::Closed;
        }
        match self.pending.take() {
            Some(work) => TakeNext::Work(work),
            None => TakeNext::Wait,
        }
    }

    /// The worker hands back a finished result: it becomes the ready result
    /// only when its ticket is still the latest.
    pub fn complete(&mut self, result: IoResult<R>) -> (r: Completion)
        ensures
            old(self).closed ==> r == Completion::Closed && *final(self) == *old(self),
            !old(self).closed && result.generation == old(self).latest_generation ==> r == Completion::Stored
                && final(self).result == Some(result) && final(self).pending == old(self).pending
                && final(self).latest_generation == old(self).latest_generation
                && final(self).alive == old(self).alive && !final(self).closed,
            !old(self).closed && result.generation != old(self).latest_generation ==> r == (Completion::Dropped {
                stale_root: result.identity@ is Root,
            }) && *final(self) == *old(self),
    {
        if self.closed {
            return Completion::Closed;
        }
        if result.generation == self.latest_generation {
            self.result = Some(result);
            Completion::Stored
        } else {
            let stale_root = result.identity.is_root();
            Completion::Dropped { stale_root }
        }
    }

    /// The worker is gone.
    pub fn mark_dead(&mut self)
        ensures
            !final(self).alive,
            final(self).pending == old(self).pending,
            final(self).result == old(self).result,
            final(self).latest_generation == old(self).latest_generation,
            final(self).closed == old(self).closed,
    {
        self.alive = false;
    }

    /// The application closes the lane: nothing pending or ready survives.
    pub fn close(&mut self)
        ensures
            final(self).closed,
            final(self).pending is None,
            final(self).result is None,
            final(self).latest_generation == old(self).latest_generation,
            final(self).alive == old(self).alive,
    {
        self.closed = true;
        self.pending = None;
        self.result = None;
    }
}

/// The ticket after `g`: one more, wrapping past the top, never zero.
pub open spec fn next_generation(g: u64) -> u64 {
    if g == u64::MAX { 1 } else { (g + 1) as u64 }
}

/// What a submission got.
#[derive(Debug, Clone, Copy, PartialEq, Eq, Structural)]
pub enum FileManagerIoSubmit {
    Accepted { generation: u64, replaced_pending: bool },
    Disconnected,
}

/// What a drain found: the ready result when it is the latest ticket's,
/// and whether the worker's death is reported now.
#[derive(Debug)]
pub struct FileManagerIoDrain<R> {
    pub current: Option<IoResult<R>>,
    pub disconnected: bool,
    /// A ready result that belonged to an older root load was thrown away.
    pub stale_root: bool,
}

/// The application's side of the lane: the latest ticket it issued and
/// whether it already heard that the worker died.
#[derive(Debug)]
pub struct IoHandle {
    pub latest_generation: u64,
    pub disconnect_reported: bool,
}

impl IoHandle {
    /// A handle that has issued nothing and heard nothing.
    pub fn new() -> (r: Self)
        ensures
            r.latest_generation == 0,
            !r.disconnect_reported,
    {
        IoHandle { latest_generation: 0, disconnect_reported: false }
    }

    /// Submit a request. A closed lane or a dead worker refuses; otherwise
    /// the request gets the next ticket and replaces whatever was pending,
    /// so the lane never holds more than one executing and one pending.
    pub fn submit<W, R>(&mut self, shared: &mut IoShared<W, R>, request: W) -> (r: FileManagerIoSubmit)
        ensures
            old(shared).closed || !old(shared).alive ==> r == FileManagerIoSubmit::Disconnected
                && *final(shared) == *old(shared) && *final(self) == *old(self),
            !old(shared).closed && old(shared).alive ==> {
                let g = next_generation(old(self).latest_generation);
                &&& r == (FileManagerIoSubmit::Accepted { generation: g, replaced_pending: old(shared).pending is Some })
                &&& final(self).latest_generation == g
                &&& final(self).disconnect_reported == old(self).disconnect_reported
                &&& final(shared).latest_generation == g
                &&& final(shared).pending == Some(IoWork { generation: g, request })
                &&& final(shared).result == old(shared).result
                &&& final(shared).alive == old(shared).alive
                &&& final(shared).closed == old(shared).closed
            },
    {
        if shared.closed || !shared.alive {
            return FileManagerIoSubmit::Disconnected;
        }
        let g = if self.latest_generation == u64::MAX { 1 } else { self.latest_generation + 1 };
        self.latest_generation = g;
        shared.latest_generation = g;
        let replaced = shared.pending.is_some();
        shared.pending = Some(IoWork { generation: g, request });
        FileManagerIoSubmit::Accepted { generation: g, replaced_pending: replaced }
    }

    /// Take the ready result. Only the latest ticket's result is handed
    /// over; an older one is dropped. A dead worker on an open lane is
    /// reported once.
    pub fn drain<W, R>(&mut self, shared: &mut IoShared<W, R>) -> (r: FileManagerIoDrain<R>)
        ensures
            final(shared).result is None,
            final(shared).pending == old(shared).pending,
            final(shared).latest_generation == old(shared).latest_generation,
            final(shared).alive == old(shared).alive,
            final(shared).closed == old(shared).closed,
            final(self).latest_generation == old(self).latest_generation,
            r.current == (match old(shared).result {
                Some(res) => if res.generation == old(self).latest_generation { Some(res) } else { None },
                None => None,
            }),
            r.stale_root == (match old(shared).result {
                Some(res) => res.generation != old(self).latest_generation && res.identity@ is Root,
                None => false,
            }),
            r.disconnected == reports_disconnect(old(shared).alive, old(shared).closed, old(self).disconnect_reported),
            final(self).disconnect_reported == (old(self).disconnect_reported || r.disconnected),
    {
        let result = shared.result.take();
        let disconnected = !shared.alive && !shared.closed && !self.disconnect_reported;
        self.disconnect_reported = self.disconnect_reported || disconnected;
        match result {
            Some(res) => {
                if res.generation == self.latest_generation {
                    FileManagerIoDrain { current: Some(res), disconnected, stale_root: false }
                } else {
                    let stale_root = res.identity.is_root();
                    FileManagerIoDrain { current: None, disconnected, stale_root }
                }
            },
            None => FileManagerIoDrain { current: None, disconnected, stale_root: false },
        }
    }
}

/// What the application does with a drained result.
#[derive(Debug, Clone, Copy, PartialEq, Eq, Structural)]
pub enum IoVerdict {
    /// The worker died: replace the lane, failing the pending root load.
    Recover,
    /// Nothing to apply.
    Idle,
    /// The result describes a world that moved on (`stale_root` when it
    /// was a root load, which the location state counts as stale).
    Reject { stale_root: bool },
    /// Every captured identity is still current: apply it.
    Apply,
}

/// The checks a drained result passes, in order: a dead lane's result is
/// never applied; without a result there is nothing to do; without an
/// active Files instance, or when the identity no longer describes the
/// world, the result is rejected; a root load must further still be the
/// pending load and still hold the rail's authority.
pub open spec fn io_verdict_spec(
    disconnected: bool,
    result: Option<IdentityView>,
    active_generation: Option<u32>,
    model_revision: u64,
    source: Option<SourceView>,
    root_pending: bool,
    root_authority: bool,
) -> IoVerdict {
    if disconnected {
        IoVerdict::Recover
    } else {
        match result {
            None => IoVerdict::Idle,
            Some(id) => match active_generation {
                None => IoVerdict::Reject { stale_root: id is Root },
                Some(g) => if !identity_is_current(id, g, model_revision, source) {
                    IoVerdict::Reject { stale_root: id is Root }
                } else if id is Root && !(root_pending && root_authority) {
                    IoVerdict::Reject { stale_root: true }
                } else {
                    IoVerdict::Apply
                },
            },
        }
    }
}

/// Judge a drained result against the world the application sees now.
/// `root_pending` and `root_authority` are the location state's and the
/// rail's answers for a root load's own target.
pub fn io_verdict(
    disconnected: bool,
    result: Option<&FileManagerIoIdentity>,
    active_generation: Option<u32>,
    model_revision: u64,
    source: Option<&FileManagerIoSource>,
    root_pending: bool,
    root_authority: bool,
) -> (r: IoVerdict)
    ensures
        r == io_verdict_spec(
            disconnected,
            match result {
                Some(id) => Some(id@),
                None => None,
            },
            active_generation,
            model_revision,
            opt_source(source),
            root_pending,
            root_authority,
        ),
{
    if disconnected {
        return IoVerdict::Recover;
    }
    let id = match result {
        Some(id) => id,
        None => {
            return IoVerdict::Idle;
        },
    };
    let g = match active_generation {
        Some(g) => g,
        None => {
            return IoVerdict::Reject { stale_root: id.is_root() };
        },
    };
    if !id.is_current(g, model_revision, source) {
        return IoVerdict::Reject { stale_root: id.is_root() };
    }
    if id.is_root() && !(root_pending && root_authority) {
        return IoVerdict::Reject { stale_root: true };
    }
    IoVerdict::Apply
}

/// Whether the rail still holds the authority to load `path`: the same Files
/// instance and model revision, the rail focused, its live cursor on
/// `path`, and the path an accessible item.
pub open spec fn location_authority_spec(
    active_generation: Option<u32>,
    locations: crate::locations::LocationsView,
    model: FileManagerLocationsModel,
    path: Seq<char>,
    files_generation: u32,
    model_revision: u64,
) -> bool {
    &&& active_generation == Some(files_generation)
    &&& model.revision_spec() == model_revision
    &&& locations.focus == FileManagerLocationsFocus::Rail
    &&& crate::locations::opt_key(live_cursor(locations, model)) == Some(path_key(path))
    &&& item_of(model.view_sections(), path) matches Some(item) && item.accessible
}

/// Whether the rail still holds the authority to load `path`.
pub fn location_authority_is_current(
    active_generation: Option<u32>,
    locations: &FileManagerLocationsState,
    model: &FileManagerLocationsModel,
    path: &str,
    files_generation: u32,
    model_revision: u64,
) -> (r: bool)
    ensures
        r == location_authority_spec(active_generation, locations@, *model, path@, files_generation, model_revision),
{
    if active_generation != Some(files_generation) || model.revision() != model_revision {
        return false;
    }
    if locations.focus() != FileManagerLocationsFocus::Rail {
        return false;
    }
    let on_path = match locations.cursor_path(model) {
        Some(p) => same_path(p, path),
        None => false,
    };
    if !on_path {
        return false;
    }
    match model.item_for_path(path) {
        Some(item) => item.accessible,
        None => false,
    }
}

/// Whether a drain reports the worker's death: it is dead, the lane is
/// open, and nobody heard of it yet.
pub open spec fn reports_disconnect(alive: bool, closed: bool, reported: bool) -> bool {
    !alive && !closed && !reported
}

/// Tickets only move forward and are never zero: the ticket after any
/// ticket differs from it, so a result of an earlier submission never
/// carries the latest ticket again until the counter wraps all the way.
pub proof fn law_tickets_advance(g: u64)
    ensures
        next_generation(g) != 0,
        next_generation(g) != g,
        g < u64::MAX ==> next_generation(g) > g,
{
}

/// A dead worker is reported once: once a drain reported it, every later
/// drain of the same lane is silent about it.
pub proof fn law_disconnect_reported_once(alive: bool, closed: bool, reported: bool)
    ensures
        reports_disconnect(alive, closed, reported) ==> !reports_disconnect(
            alive,
            closed,
            reported || reports_disconnect(alive, closed, reported),
        ),
{
}

/// The trail entry the Files cursor is on: column, index, path, and whether
/// it is a directory.
#[derive(Debug)]
pub struct TrailCursor {
    pub trail_col: usize,
    pub entry_index: usize,
    pub path: String,
    pub is_directory: bool,
}

/// What an applied result carries, as far as deciding goes: the identity its
/// payload was prepared under and the plain facts of that payload. The
/// prepared Files states themselves stay with the caller.
#[derive(Debug)]
pub enum PreparedOutcome {
    /// A root load prepared `target`.
    RootLoaded { prepared: FileManagerIoIdentity, target: String },
    /// A root load failed.
    RootFailed(RootNavigationError),
    /// A navigation prepared for a Files instance, with or without a payload.
    Navigate { files_generation: u32, loaded: bool },
    /// A current-directory refresh.
    Refresh,
    /// A trail refresh; `projection_changed` is present when a payload came.
    TrailRefresh { prepared: FileManagerIoIdentity, projection_changed: Option<bool> },
    /// A trail preview, with or without a payload.
    TrailPreview { prepared: FileManagerIoIdentity, loaded: bool },
    /// A trail activation; `branched` is present when a payload came.
    TrailActivate { prepared: FileManagerIoIdentity, branched: Option<bool> },
    /// The processor panicked; `root` when it was a root load.
    Panicked { root: bool },
}

/// What the application does with an outcome that passed `io_verdict`.
#[derive(Debug, Clone, Copy, PartialEq, Eq, Structural)]
pub enum OutcomeAction {
    /// Count the root result as stale; nothing changes.
    RejectRoot,
    /// Fail the pending root load with this reason.
    FailRoot(FileManagerLocationLoadError),
    /// Install the prepared Files state and accept its location.
    AcceptRoot,
    /// Apply the prepared navigation to the current Files state.
    ApplyNavigation,
    /// Apply the prepared refresh to the current Files state.
    ApplyRefresh,
    /// Install the prepared trail refresh, record the reconcile, and report
    /// whether the projection changed.
    InstallReconciled { projection_changed: bool },
    /// Install the prepared Files state.
    Install,
    /// Nothing changes.
    Ignore,
}

/// Whether the Files cursor still rests on the directory a preview was made
/// for.
pub open spec fn cursor_on_preview(cursor: Option<TrailCursor>, id: IdentityView) -> bool {
    match (cursor, id) {
        (Some(c), IdentityView::TrailPreview { trail_col, entry_index, expected_path, .. }) => c.trail_col == trail_col
            && c.entry_index == entry_index && path_key(c.path@) == expected_path && c.is_directory,
        _ => false,
    }
}

/// Whether `target` is an accessible item of the rail.
pub open spec fn target_accessible(model: FileManagerLocationsModel, target: Seq<char>) -> bool {
    item_of(model.view_sections(), target) matches Some(item) && item.accessible
}

/// The step after the identity checks. A root load is accepted only when
/// its payload was prepared for exactly the result's identity and its target
/// is still an accessible rail item, and fails when entering the trail could
/// not focus an entry; a failed or panicked root load fails the pending load
/// with its reason. A navigation applies only to the Files instance it was
/// prepared for; trail payloads install only under exactly the result's
/// identity, a preview only while the cursor still rests on its directory,
/// an activation only when it branched.
pub open spec fn outcome_action_spec(
    result: IdentityView,
    outcome: PreparedOutcome,
    files_generation: u32,
    model: FileManagerLocationsModel,
    enter_trail_focus: Option<bool>,
    cursor: Option<TrailCursor>,
) -> OutcomeAction {
    match outcome {
        PreparedOutcome::RootLoaded { prepared, target } => if prepared@ != result || !target_accessible(model, target@) {
            OutcomeAction::RejectRoot
        } else if enter_trail_focus == Some(false) {
            OutcomeAction::FailRoot(FileManagerLocationLoadError::Unavailable)
        } else {
            OutcomeAction::AcceptRoot
        },
        PreparedOutcome::RootFailed(e) => OutcomeAction::FailRoot(load_error_of(e)),
        PreparedOutcome::Navigate { files_generation: g, loaded } => if g == files_generation && loaded {
            OutcomeAction::ApplyNavigation
        } else {
            OutcomeAction::Ignore
        },
        PreparedOutcome::Refresh => OutcomeAction::ApplyRefresh,
        PreparedOutcome::TrailRefresh { prepared, projection_changed } => if prepared@ != result {
            OutcomeAction::Ignore
        } else {
            match projection_changed {
                Some(c) => OutcomeAction::InstallReconciled { projection_changed: c },
                None => OutcomeAction::Ignore,
            }
        },
        PreparedOutcome::TrailPreview { prepared, loaded } => if prepared@ == result && cursor_on_preview(cursor, prepared@)
            && loaded {
            OutcomeAction::Install
        } else {
            OutcomeAction::Ignore
        },
        PreparedOutcome::TrailActivate { prepared, branched } => if prepared@ == result && branched == Some(true) {
            OutcomeAction::Install
        } else {
            OutcomeAction::Ignore
        },
        PreparedOutcome::Panicked { root } => if root {
            OutcomeAction::FailRoot(FileManagerLocationLoadError::Unavailable)
        } else {
            OutcomeAction::Ignore
        },
    }
}

/// Every change an outcome makes is earned. A trail activation installs
/// only when it branched under exactly the result's identity, and a
/// non-branched or payload-less one installs nothing; a trail preview
/// installs only under the result's identity, with a payload, while the
/// cursor still rests on its directory; a trail refresh installs only under
/// the result's identity and reports the payload's own projection change; a
/// navigation applies only to the Files instance it was prepared for and
/// only with a payload; a root load is accepted only for exactly the
/// result's identity and an accessible target whose trail entry could be
/// focused. Nothing but a preview or an activation installs.
pub proof fn law_outcomes_install_only_what_they_earned(
    result: IdentityView,
    outcome: PreparedOutcome,
    files_generation: u32,
    model: FileManagerLocationsModel,
    enter_trail_focus: Option<bool>,
    cursor: Option<TrailCursor>,
)
    ensures
        ({
            let a = outcome_action_spec(result, outcome, files_generation, model, enter_trail_focus, cursor);
            &&& outcome matches PreparedOutcome::TrailActivate { prepared, branched } ==> (a == OutcomeAction::Install <==> (
                prepared@ == result && branched == Some(true)))
            &&& outcome matches PreparedOutcome::TrailActivate { prepared, branched } ==> (branched != Some(true) ==> (a
                == OutcomeAction::Ignore))
            &&& outcome matches PreparedOutcome::TrailPreview { prepared, loaded } ==> (a == OutcomeAction::Install <==> (
                prepared@ == result && loaded && cursor_on_preview(cursor, result)))
            &&& outcome matches PreparedOutcome::TrailRefresh { prepared, projection_changed } ==> (a matches OutcomeAction::InstallReconciled {
                projection_changed: c,
            } ==> prepared@ == result && projection_changed == Some(c))
            &&& outcome matches PreparedOutcome::Navigate { files_generation: g, loaded } ==> (a == OutcomeAction::ApplyNavigation
                <==> (g == files_generation && loaded))
            &&& outcome matches PreparedOutcome::RootLoaded { prepared, target } ==> (a == OutcomeAction::AcceptRoot <==> (
                prepared@ == result && target_accessible(model, target@) && enter_trail_focus != Some(false)))
            &&& outcome matches PreparedOutcome::TrailRefresh { prepared, projection_changed } ==> ((a is InstallReconciled) <==> (
                prepared@ == result && projection_changed is Some))
            &&& outcome matches PreparedOutcome::RootLoaded { prepared, target } ==> ((a == OutcomeAction::RejectRoot) <==> (
                prepared@ != result || !target_accessible(model, target@)))
            &&& outcome is RootFailed ==> a is FailRoot
            &&& outcome matches PreparedOutcome::Panicked { root } ==> ((a is FailRoot) <==> root) && (!root ==> (a
                == OutcomeAction::Ignore))
            &&& outcome is Refresh ==> a == OutcomeAction::ApplyRefresh
            &&& a == OutcomeAction::Install ==> (outcome is TrailActivate || outcome is TrailPreview)
            &&& a == OutcomeAction::AcceptRoot ==> outcome is RootLoaded
        }),
{
}

/// Decide what an outcome that passed `io_verdict` does. `enter_trail_focus`
/// is whether the prepared root could focus its first entry when the
/// pending load means to enter the trail (`None` when it does not);
/// `cursor` is where the current Files cursor rests.
pub fn outcome_action(
    result: &FileManagerIoIdentity,
    outcome: &PreparedOutcome,
    files_generation: u32,
    model: &FileManagerLocationsModel,
    enter_trail_focus: Option<bool>,
    cursor: Option<&TrailCursor>,
) -> (r: OutcomeAction)
    ensures
        r == outcome_action_spec(
            result@,
            *outcome,
            files_generation,
            *model,
            enter_trail_focus,
            match cursor {
                Some(c) => Some(*c),
                None => None,
            },
        ),
{
    match outcome {
        PreparedOutcome::RootLoaded { prepared, target } => {
            let accessible = match model.item_for_path(target.as_str()) {
                Some(item) => item.accessible,
                None => false,
            };
            if !prepared.same_identity(result) || !accessible {
                OutcomeAction::RejectRoot
            } else if enter_trail_focus == Some(false) {
                OutcomeAction::FailRoot(FileManagerLocationLoadError::Unavailable)
            } else {
                OutcomeAction::AcceptRoot
            }
        },
        PreparedOutcome::RootFailed(e) => OutcomeAction::FailRoot(location_load_error(*e)),
        PreparedOutcome::Navigate { files_generation: g, loaded } => {
            if *g == files_generation && *loaded {
                OutcomeAction::ApplyNavigation
            } else {
                OutcomeAction::Ignore
            }
        },
        PreparedOutcome::Refresh => OutcomeAction::ApplyRefresh,
        PreparedOutcome::TrailRefresh { prepared, projection_changed } => {
            if !prepared.same_identity(result) {
                OutcomeAction::Ignore
            } else {
                match projection_changed {
                    Some(c) => OutcomeAction::InstallReconciled { projection_changed: *c },
                    None => OutcomeAction::Ignore,
                }
            }
        },
        PreparedOutcome::TrailPreview { prepared, loaded } => {
            let on_cursor = match (cursor, prepared) {
                (Some(c), FileManagerIoIdentity::TrailPreview { trail_col, entry_index, expected_path, .. }) => {
                    c.trail_col == *trail_col && c.entry_index == *entry_index && same_path(
                        c.path.as_str(),
                        expected_path.as_str(),
                    ) && c.is_directory
                },
                _ => false,
            };
            if prepared.same_identity(result) && on_cursor && *loaded {
                OutcomeAction::Install
            } else {
                OutcomeAction::Ignore
            }
        },
        PreparedOutcome::TrailActivate { prepared, branched } => {
            if prepared.same_identity(result) && *branched == Some(true) {
                OutcomeAction::Install
            } else {
                OutcomeAction::Ignore
            }
        },
        PreparedOutcome::Panicked { root } => {
            if *root {
                OutcomeAction::FailRoot(FileManagerLocationLoadError::Unavailable)
            } else {
                OutcomeAction::Ignore
            }
        },
    }
}


/// The request a trail directory entry asks the lane for: a preview for a
/// hover or mouse selection, an activation (landing on the first actionable
/// entry) for an explicit open. Without an active Files instance, or unless
/// the entry is known to be a directory, nothing is asked.
pub fn trail_directory_request<S>(
    files_generation: Option<u32>,
    entry_is_directory: Option<bool>,
    source: FileManagerIoSource,
    trail_col: usize,
    entry_index: usize,
    expected_path: String,
    preview_only: bool,
    file_manager: S,
) -> (r: Option<FileManagerIoRequest<S>>)
    ensures
        files_generation is None || entry_is_directory != Some(true) ==> r is None,
        files_generation is Some && entry_is_directory == Some(true) ==> r is Some && request_identity(r->0) == if preview_only {
            IdentityView::TrailPreview {
                files_generation: files_generation->0,
                source: source@,
                trail_col,
                entry_index,
                expected_path: path_key(expected_path@),
            }
        } else {
            IdentityView::TrailActivate {
                files_generation: files_generation->0,
                source: source@,
                trail_col,
                entry_index,
                expected_path: path_key(expected_path@),
                destination_policy: FileManagerTrailDestinationPolicy::FocusFirstActionable,
            }
        },
        r matches Some(FileManagerIoRequest::TrailPreview { file_manager: f, .. }) ==> f == file_manager,
        r matches Some(FileManagerIoRequest::TrailActivate { file_manager: f, .. }) ==> f == file_manager,
        r is Some ==> (r->0 is TrailPreview) == preview_only && (r->0 is TrailActivate) == !preview_only,
{
    let g = match files_generation {
        Some(g) => g,
        None => {
            return None;
        },
    };
    if entry_is_directory != Some(true) {
        return None;
    }
    if preview_only {
        Some(FileManagerIoRequest::TrailPreview { files_generation: g, source, trail_col, entry_index, expected_path, file_manager })
    } else {
        Some(
            FileManagerIoRequest::TrailActivate {
                files_generation: g,
                source,
                trail_col,
                entry_index,
                expected_path,
                destination_policy: FileManagerTrailDestinationPolicy::FocusFirstActionable,
                file_manager,
            },
        )
    }
}


/// When the lane is replaced after its worker died, the root load that was
/// pending fails as unavailable, but only while the rail still holds the
/// authority to load it; otherwise the locations state is left as it was.
pub fn fail_pending_root_on_recovery(
    active_generation: Option<u32>,
    locations: &mut FileManagerLocationsState,
    model: &FileManagerLocationsModel,
) -> (r: bool)
    ensures
        match old(locations)@.pending {
            None => !r && final(locations)@ == old(locations)@,
            Some(p) => if location_authority_spec(active_generation, old(locations)@, *model, p.path, p.files_generation, p.model_revision) {
                r && final(locations)@ == (crate::locations::LocationsView {
                    pending: None,
                    failure: Some((p.path, FileManagerLocationLoadError::Unavailable)),
                    ..old(locations)@
                })
            } else {
                !r && final(locations)@ == old(locations)@
            },
        },
{
    let (path, files_generation, model_revision) = match locations.pending_root() {
        Some(p) => (p.path.clone(), p.files_generation, p.model_revision),
        None => {
            return false;
        },
    };
    if !location_authority_is_current(active_generation, locations, model, path.as_str(), files_generation, model_revision) {
        return false;
    }
    locations.fail_load(path, FileManagerLocationLoadError::Unavailable);
    true
}

} // verus!
