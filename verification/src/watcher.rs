//! The native file-manager watcher's schedule: which mode it runs in, when
//! the periodic reconcile is due, which reconcile was requested, and which
//! burst of events the file manager's own operation is known to have caused.
//! The watcher backend, its channel and the clock belong to the caller, which
//! hands in times as milliseconds and the watcher slot's answers as plain
//! values.

use vstd::prelude::*;

use crate::paths::{path_key, same_path};

verus! {

/// How long the backend debounces filesystem events.
pub const WATCH_DEBOUNCE_MS: u64 = 250;

/// How many events the backend channel buffers before it overflows.
pub const WATCH_CHANNEL_CAPACITY: usize = 64;

/// How many events one drain takes at most.
pub const WATCH_DRAIN_LIMIT: usize = 32;

/// The periodic reconcile's interval, which also bounds how long an
/// operation owns its burst of events.
pub const WATCH_RECONCILE_INTERVAL_MS: u64 = 2000;

/// How the watched directory is being followed.
#[derive(Debug, Clone, Copy, PartialEq, Eq, Structural)]
pub enum FileManagerWatcherMode {
    Inactive,
    Native,
    PollingFallback,
}

/// What rebinding the watcher to the current directory did.
#[derive(Debug, Clone, Copy, PartialEq, Eq, Structural)]
pub enum WatcherSync {
    /// Still watching the same directory.
    Unchanged,
    /// A new directory is watched; `native` when the native backend started.
    Started { native: bool },
    /// Nothing is watched any more.
    Stopped,
}

/// The paths an operation of the file manager itself is about to touch, for
/// which watcher generation, until when.
#[derive(Debug)]
pub struct OwnedOperationBurst {
    pub watcher_generation: u64,
    pub paths: Vec<String>,
    pub expires_at: u64,
}

/// The schedule, as plain values.
pub struct ScheduleView {
    pub mode: FileManagerWatcherMode,
    pub next_reconcile_at: Option<u64>,
    pub requested_reconcile_generation: Option<u64>,
    pub reconcile_revision: u64,
    pub owned: Option<(u64, Seq<Seq<char>>, u64)>,
}

/// The watcher's schedule.
#[derive(Debug)]
pub struct WatcherSchedule {
    mode: FileManagerWatcherMode,
    next_reconcile_at: Option<u64>,
    requested_reconcile_generation: Option<u64>,
    reconcile_revision: u64,
    owned_operation_burst: Option<OwnedOperationBurst>,
}

/// The identity of each path.
pub open spec fn path_views(v: Seq<String>) -> Seq<Seq<char>> {
    v.map_values(|s: String| path_key(s@))
}

pub open spec fn owned_view(o: Option<OwnedOperationBurst>) -> Option<(u64, Seq<Seq<char>>, u64)> {
    match o {
        Some(b) => Some((b.watcher_generation, path_views(b.paths@), b.expires_at)),
        None => None,
    }
}

impl View for WatcherSchedule {
    type V = ScheduleView;

    closed spec fn view(&self) -> ScheduleView {
        ScheduleView {
            mode: self.mode,
            next_reconcile_at: self.next_reconcile_at,
            requested_reconcile_generation: self.requested_reconcile_generation,
            reconcile_revision: self.reconcile_revision,
            owned: owned_view(self.owned_operation_burst),
        }
    }
}

/// `now` plus one reconcile interval, saturating.
pub open spec fn after_interval(now: u64) -> u64 {
    if now > u64::MAX - WATCH_RECONCILE_INTERVAL_MS {
        u64::MAX
    } else {
        (now + WATCH_RECONCILE_INTERVAL_MS) as u64
    }
}

/// The revision after a reconcile: one more, wrapping past zero to one, so
/// a revision that was observed never comes back as "nothing reconciled".
pub open spec fn next_revision(r: u64) -> u64 {
    if r == u64::MAX { 1 } else { (r + 1) as u64 }
}

/// One tick of the periodic reconcile: due when a deadline exists and has
/// come, and then the next deadline is one interval after `now`.
pub open spec fn reconcile_tick(s: ScheduleView, now: u64) -> (bool, ScheduleView) {
    match s.next_reconcile_at {
        Some(d) => if now >= d {
            (true, ScheduleView { next_reconcile_at: Some(after_interval(now)), ..s })
        } else {
            (false, s)
        },
        None => (false, s),
    }
}

/// Whether every drained path is one the operation owns.
pub open spec fn all_owned(drained: Seq<Seq<char>>, owned: Seq<Seq<char>>) -> bool {
    forall|i: int| 0 <= i < drained.len() ==> owned.contains(#[trigger] drained[i])
}

fn contains_path(v: &Vec<String>, p: &str) -> (r: bool)
    ensures
        r == path_views(v@).contains(path_key(p@)),
{
    let mut i: usize = 0;
    while i < v.len()
        invariant
            i <= v@.len(),
            forall|j: int| 0 <= j < i ==> path_key(v@[j]@) != path_key(p@),
        decreases v.len() - i,
    {
        if same_path(v[i].as_str(), p) {
            assert(path_views(v@)[i as int] == path_key(p@));
            return true;
        }
        i = i + 1;
    }
    proof {
        if path_views(v@).contains(path_key(p@)) {
            let k = choose|k: int| 0 <= k < path_views(v@).len() && path_views(v@)[k] == path_key(p@);
            assert(path_key(v@[k]@) == path_key(p@));
        }
    }
    false
}

impl WatcherSchedule {
    /// A schedule watching nothing.
    pub fn new() -> (r: Self)
        ensures
            r@ == (ScheduleView {
                mode: FileManagerWatcherMode::Inactive,
                next_reconcile_at: None,
                requested_reconcile_generation: None,
                reconcile_revision: 0,
                owned: None,
            }),
    {
        WatcherSchedule {
            mode: FileManagerWatcherMode::Inactive,
            next_reconcile_at: None,
            requested_reconcile_generation: None,
            reconcile_revision: 0,
            owned_operation_burst: None,
        }
    }

    pub fn mode(&self) -> (r: FileManagerWatcherMode)
        ensures
            r == self@.mode,
    {
        self.mode
    }

    /// When the periodic reconcile is next due.
    pub fn next_reconcile_at(&self) -> (r: Option<u64>)
        ensures
            r == self@.next_reconcile_at,
    {
        self.next_reconcile_at
    }

    pub fn reconcile_revision(&self) -> (r: u64)
        ensures
            r == self@.reconcile_revision,
    {
        self.reconcile_revision
    }

    /// Follow a rebind: a new directory starts natively or falls back to
    /// polling, with the first reconcile one interval away and nothing
    /// requested or owned; a stopped watcher is inactive with nothing
    /// scheduled; an unchanged one keeps its schedule.
    pub fn apply_sync(&mut self, sync: WatcherSync, now: u64)
        ensures
            sync == WatcherSync::Unchanged ==> final(self)@ == old(self)@,
            sync matches WatcherSync::Started { native } ==> final(self)@ == (ScheduleView {
                mode: if native { FileManagerWatcherMode::Native } else { FileManagerWatcherMode::PollingFallback },
                next_reconcile_at: Some(after_interval(now)),
                requested_reconcile_generation: None,
                owned: None,
                ..old(self)@
            }),
            sync == WatcherSync::Stopped ==> final(self)@ == (ScheduleView {
                mode: FileManagerWatcherMode::Inactive,
                next_reconcile_at: None,
                requested_reconcile_generation: None,
                owned: None,
                ..old(self)@
            }),
    {
        match sync {
            WatcherSync::Unchanged => {},
            WatcherSync::Started { native } => {
                self.mode = if native {
                    FileManagerWatcherMode::Native
                } else {
                    FileManagerWatcherMode::PollingFallback
                };
                self.next_reconcile_at = Some(now.saturating_add(WATCH_RECONCILE_INTERVAL_MS));
                self.requested_reconcile_generation = None;
                self.owned_operation_burst = None;
            },
            WatcherSync::Stopped => {
                self.mode = FileManagerWatcherMode::Inactive;
                self.next_reconcile_at = None;
                self.requested_reconcile_generation = None;
                self.owned_operation_burst = None;
            },
        }
    }

    /// A drain that found the channel gone or the backend reporting errors
    /// degrades the watcher to polling.
    pub fn note_drain(&mut self, disconnected: bool, had_errors: bool)
        ensures
            disconnected || had_errors ==> final(self)@ == (ScheduleView {
                mode: FileManagerWatcherMode::PollingFallback,
                ..old(self)@
            }),
            !(disconnected || had_errors) ==> final(self)@ == old(self)@,
    {
        if disconnected || had_errors {
            self.mode = FileManagerWatcherMode::PollingFallback;
        }
    }

    /// Whether the periodic reconcile is due; when it is, the next one is
    /// scheduled one interval after `now`.
    pub fn take_reconcile_due(&mut self, now: u64) -> (r: bool)
        ensures
            (r, final(self)@) == reconcile_tick(old(self)@, now),
    {
        let deadline = match self.next_reconcile_at {
            Some(d) => d,
            None => {
                return false;
            },
        };
        if now < deadline {
            return false;
        }
        self.next_reconcile_at = Some(now.saturating_add(WATCH_RECONCILE_INTERVAL_MS));
        true
    }

    /// Ask for a reconcile of `directory`'s watcher generation; only the
    /// watched directory, with a backend, can be asked.
    pub fn request_reconcile(&mut self, watching_directory: bool, has_backend: bool, generation: u64) -> (r: bool)
        ensures
            r == (watching_directory && has_backend),
            r ==> final(self)@ == (ScheduleView { requested_reconcile_generation: Some(generation), ..old(self)@ }),
            !r ==> final(self)@ == old(self)@,
    {
        if !watching_directory || !has_backend {
            return false;
        }
        self.requested_reconcile_generation = Some(generation);
        true
    }

    /// Declare the events an operation of the file manager is about to
    /// cause as its own, for one interval: they will not trigger a second
    /// refresh. Only the watched directory's accepted generation can own a
    /// burst, and an empty burst owns nothing.
    pub fn own_operation_reconcile(
        &mut self,
        watching_directory: bool,
        accepts_generation: bool,
        watcher_generation: u64,
        paths: Vec<String>,
        request_reconcile: bool,
        now: u64,
    ) -> (r: bool)
        ensures
            r == (watching_directory && accepts_generation && paths@.len() > 0),
            !r ==> final(self)@ == old(self)@,
            r ==> final(self)@ == (ScheduleView {
                owned: Some((watcher_generation, path_views(paths@), after_interval(now))),
                requested_reconcile_generation: if request_reconcile {
                    Some(watcher_generation)
                } else {
                    old(self)@.requested_reconcile_generation
                },
                ..old(self)@
            }),
    {
        if !watching_directory || !accepts_generation || paths.len() == 0 {
            return false;
        }
        self.owned_operation_burst = Some(
            OwnedOperationBurst {
                watcher_generation,
                paths,
                expires_at: now.saturating_add(WATCH_RECONCILE_INTERVAL_MS),
            },
        );
        if request_reconcile {
            self.requested_reconcile_generation = Some(watcher_generation);
        }
        true
    }

    /// The watcher generation the owned burst belongs to, if one is owned.
    pub fn owned_generation(&self) -> (r: Option<u64>)
        ensures
            r == match self@.owned {
                Some(o) => Some(o.0),
                None => None::<u64>,
            },
    {
        match &self.owned_operation_burst {
            Some(b) => Some(b.watcher_generation),
            None => None,
        }
    }

    /// Whether a drained burst of paths is entirely the operation's own.
    /// An expired burst, or one whose generation the slot no longer accepts
    /// (`generation_accepted`), is forgotten; a drained path the operation
    /// did not own also ends the ownership.
    pub fn owns_drained_operation_burst(&mut self, paths: &Vec<String>, now: u64, generation_accepted: bool) -> (r: bool)
        ensures
            match old(self)@.owned {
                None => !r && final(self)@ == old(self)@,
                Some((g, owned, expires)) => if now > expires || !generation_accepted {
                    !r && final(self)@ == (ScheduleView { owned: None, ..old(self)@ })
                } else if paths@.len() == 0 {
                    !r && final(self)@ == old(self)@
                } else if all_owned(path_views(paths@), owned) {
                    r && final(self)@ == old(self)@
                } else {
                    !r && final(self)@ == (ScheduleView { owned: None, ..old(self)@ })
                },
            },
    {
        let expired = match &self.owned_operation_burst {
            None => {
                return false;
            },
            Some(b) => now > b.expires_at,
        };
        if expired || !generation_accepted {
            self.owned_operation_burst = None;
            return false;
        }
        if paths.len() == 0 {
            return false;
        }
        let mut owned_only = true;
        match &self.owned_operation_burst {
            None => {
                return false;
            },
            Some(b) => {
                let mut i: usize = 0;
                while i < paths.len()
                    invariant
                        i <= paths@.len(),
                        owned_only == all_owned(path_views(paths@.take(i as int)), path_views(b.paths@)),
                    decreases paths.len() - i,
                {
                    let here = contains_path(&b.paths, paths[i].as_str());
                    proof {
                        let pre = path_views(paths@.take(i as int));
                        let next = path_views(paths@.take(i + 1));
                        assert(next =~= pre.push(path_key(paths@[i as int]@)));
                        if all_owned(next, path_views(b.paths@)) {
                            assert(next[i as int] == path_key(paths@[i as int]@));
                        }
                        if !all_owned(pre, path_views(b.paths@)) {
                            let k = choose|k: int| 0 <= k < pre.len() && !path_views(b.paths@).contains(#[trigger] pre[k]);
                            assert(next[k] == pre[k]);
                        }
                    }
                    owned_only = owned_only && here;
                    i = i + 1;
                }
                assert(paths@.take(i as int) =~= paths@);
            },
        }
        if !owned_only {
            self.owned_operation_burst = None;
        }
        owned_only
    }

    /// The generation a reconcile was requested for, if any.
    pub fn requested_generation(&self) -> (r: Option<u64>)
        ensures
            r == self@.requested_reconcile_generation,
    {
        self.requested_reconcile_generation
    }

    /// Consume the reconcile request: it counts only when one was made and
    /// the slot still accepts its generation (`generation_accepted`).
    pub fn take_requested_reconcile(&mut self, generation_accepted: bool) -> (r: bool)
        ensures
            r == (old(self)@.requested_reconcile_generation is Some && generation_accepted),
            final(self)@ == (ScheduleView { requested_reconcile_generation: None, ..old(self)@ }),
    {
        let requested = self.requested_reconcile_generation.is_some();
        self.requested_reconcile_generation = None;
        requested && generation_accepted
    }

    /// The generation and revision a caller can later ask about, while the
    /// directory is watched with a backend.
    pub fn reconcile_snapshot(&self, watching_directory: bool, has_backend: bool, generation: u64) -> (r: Option<(u64, u64)>)
        ensures
            r == if watching_directory && has_backend {
                Some((generation, self@.reconcile_revision))
            } else {
                None::<(u64, u64)>
            },
    {
        if watching_directory && has_backend {
            Some((generation, self.reconcile_revision))
        } else {
            None
        }
    }

    /// Whether a reconcile ran since a snapshot was taken.
    pub fn reconciled_since(&self, watching_directory: bool, generation_accepted: bool, revision: u64) -> (r: bool)
        ensures
            r == (watching_directory && generation_accepted && self@.reconcile_revision != revision),
    {
        watching_directory && generation_accepted && self.reconcile_revision != revision
    }

    /// Record that a refresh ran.
    pub fn record_reconcile(&mut self)
        ensures
            final(self)@ == (ScheduleView { reconcile_revision: next_revision(old(self)@.reconcile_revision), ..old(self)@ }),
    {
        self.reconcile_revision = if self.reconcile_revision == u64::MAX {
            1
        } else {
            self.reconcile_revision + 1
        };
    }
}

/// Whether a watcher tick refreshes the current directory: on events the
/// operation did not cause itself, on the periodic reconcile, or on a
/// requested one.
pub fn watcher_needs_refresh(events_refresh: bool, owned_burst: bool, reconcile_due: bool, requested_reconcile: bool) -> (r: bool)
    ensures
        r == ((events_refresh && !owned_burst) || reconcile_due || requested_reconcile),
{
    (events_refresh && !owned_burst) || reconcile_due || requested_reconcile
}

/// Whether a drain filled its whole budget: more events may be waiting.
pub fn drain_limit_reached(taken: usize, limit: usize) -> (r: bool)
    ensures
        r == (taken == limit && limit != 0),
{
    taken == limit && limit != 0
}

/// Whether a drain must refresh: the events asked for it, or the channel
/// overflowed while a backend was running and events may have been lost.
pub fn drain_refresh(events_refresh: bool, overflowed: bool, has_backend: bool) -> (r: bool)
    ensures
        r == (events_refresh || (overflowed && has_backend)),
{
    events_refresh || (overflowed && has_backend)
}

/// A reconcile revision never returns to zero and always moves.
pub proof fn law_revision_moves(r: u64)
    ensures
        next_revision(r) != 0,
        next_revision(r) != r,
{
}

/// The periodic reconcile does not fire twice within one interval: once it
/// fired at `now`, a tick before one more interval finds it not due, and a
/// tick at the end of the interval finds it due again.
pub proof fn law_reconcile_waits_an_interval(s: ScheduleView, now: u64, later: u64)
    requires
        reconcile_tick(s, now).0,
    ensures
        later < after_interval(now) ==> !reconcile_tick(reconcile_tick(s, now).1, later).0,
        later >= after_interval(now) ==> reconcile_tick(reconcile_tick(s, now).1, later).0,
{
}

} // verus!
