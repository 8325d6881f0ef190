//! Pane dormancy policy: when a retired pane's runtime may be released, when
//! a dormant pane wakes, and when an idle server may retire.
//!
//! Two rules come first, in this order: a pane with a live child is never
//! put to sleep, and a watched pane is never put to sleep. Writing the
//! scrollback, releasing the runtime and spawning it again are the
//! application's; the decisions are here. Times are monotonic milliseconds.

use vstd::prelude::*;

use crate::paths::{join_path, path_join};
use crate::text::{owned, push_text};

verus! {

/// How long a server must be clientless and childless before it may exit.
pub const IDLE_SERVER_EXIT_GRACE_MS: u64 = 1800000;

/// How often the dormancy sweep (and the retirement check) looks at all.
pub const DORMANCY_SWEEP_INTERVAL_MS: u64 = 60000;

/// How long a pane must have been retired before quiet time alone puts it
/// to sleep. Memory pressure bypasses this, never the live-child rule.
pub const DORMANCY_QUIET_THRESHOLD_MS: u64 = 86400000;

/// Why a pane was left alone.
#[derive(Debug, Clone, Copy, PartialEq, Eq, Structural)]
pub enum DormancyRefusal {
    /// The pane id resolved to nothing.
    NoSuchPane,
    /// The pane has no runtime: it is already dormant or never had one.
    NoRuntime,
    /// The child process is still running; dormancy never touches live work.
    ChildStillRunning,
    /// A display is watching the pane's tab.
    Watched,
    /// The scrollback could not be written; the runtime was kept.
    HistoryWriteFailed,
    /// The pane is on the alternate screen where the history capture can
    /// read only the active screen; sleeping it would discard the primary
    /// history.
    HistoryUnavailable,
}

/// Whether anything is looking at a tab: a display attached to it, or, in
/// the monolithic client, the client's own active tab.
pub open spec fn watched_spec(
    workspace_exists: bool,
    tab_is_watched: bool,
    has_input: bool,
    active_workspace: Option<usize>,
    ws_idx: usize,
    active_tab: usize,
    tab_idx: usize,
) -> bool {
    workspace_exists && (tab_is_watched || (has_input && active_workspace == Some(ws_idx) && active_tab == tab_idx))
}

/// Whether anything is looking at a tab. Dormancy and waking share this one
/// definition so a pane cannot be slept by one rule and woken by another.
pub fn tab_effectively_watched(
    workspace_exists: bool,
    tab_is_watched: bool,
    has_input: bool,
    active_workspace: Option<usize>,
    ws_idx: usize,
    active_tab: usize,
    tab_idx: usize,
) -> (r: bool)
    ensures
        r == watched_spec(workspace_exists, tab_is_watched, has_input, active_workspace, ws_idx, active_tab, tab_idx),
{
    if !workspace_exists {
        return false;
    }
    if tab_is_watched {
        return true;
    }
    has_input && active_workspace == Some(ws_idx) && active_tab == tab_idx
}

/// The watch rule. A tab with a display attached is watched; without one,
/// only the client's own active tab of the active workspace is, and only
/// while the client takes input; a tab of a workspace that is gone is never
/// watched. So of two different tabs without a display, at most one counts
/// as watched: every background tab may sleep.
pub proof fn law_watch_rule(
    workspace_exists: bool,
    tab_is_watched: bool,
    has_input: bool,
    active_workspace: Option<usize>,
    ws_idx: usize,
    active_tab: usize,
    tab_idx: usize,
    other_tab: usize,
)
    ensures
        !workspace_exists ==> !watched_spec(workspace_exists, tab_is_watched, has_input, active_workspace, ws_idx, active_tab, tab_idx),
        workspace_exists && tab_is_watched ==> watched_spec(workspace_exists, tab_is_watched, has_input, active_workspace, ws_idx, active_tab, tab_idx),
        !tab_is_watched && active_tab != tab_idx ==> !watched_spec(workspace_exists, tab_is_watched, has_input, active_workspace, ws_idx, active_tab, tab_idx),
        !tab_is_watched && !has_input ==> !watched_spec(workspace_exists, tab_is_watched, has_input, active_workspace, ws_idx, active_tab, tab_idx),
        !tab_is_watched && active_workspace != Some(ws_idx) ==> !watched_spec(workspace_exists, tab_is_watched, has_input, active_workspace, ws_idx, active_tab, tab_idx),
        workspace_exists && has_input && active_workspace == Some(ws_idx) ==> watched_spec(workspace_exists, false, has_input, active_workspace, ws_idx, active_tab, active_tab),
        tab_idx != other_tab && watched_spec(workspace_exists, false, has_input, active_workspace, ws_idx, active_tab, tab_idx)
            ==> !watched_spec(workspace_exists, false, has_input, active_workspace, ws_idx, active_tab, other_tab),
{
}

/// What the application knows of a pane it is asked to put to sleep.
#[derive(Debug, Clone, Copy, PartialEq, Eq, Structural)]
pub struct DormancyFacts {
    pub pane_found: bool,
    pub has_runtime: bool,
    pub child_exited: bool,
    pub watched: bool,
    /// The pane is on the alternate screen and this platform's capture can
    /// read only the active one.
    pub history_unreadable: bool,
}

/// The guards, in order: the pane exists, has a runtime, its child has
/// exited, nobody watches it, and its history can be read.
pub open spec fn dormancy_guard_spec(f: DormancyFacts) -> Result<(), DormancyRefusal> {
    if !f.pane_found {
        Err(DormancyRefusal::NoSuchPane)
    } else if !f.has_runtime {
        Err(DormancyRefusal::NoRuntime)
    } else if !f.child_exited {
        Err(DormancyRefusal::ChildStillRunning)
    } else if f.watched {
        Err(DormancyRefusal::Watched)
    } else if f.history_unreadable {
        Err(DormancyRefusal::HistoryUnavailable)
    } else {
        Ok(())
    }
}

/// May the pane's runtime be released? The history write comes after.
pub fn dormancy_guard(f: DormancyFacts) -> (r: Result<(), DormancyRefusal>)
    ensures
        r == dormancy_guard_spec(f),
{
    if !f.pane_found {
        Err(DormancyRefusal::NoSuchPane)
    } else if !f.has_runtime {
        Err(DormancyRefusal::NoRuntime)
    } else if !f.child_exited {
        Err(DormancyRefusal::ChildStillRunning)
    } else if f.watched {
        Err(DormancyRefusal::Watched)
    } else if f.history_unreadable {
        Err(DormancyRefusal::HistoryUnavailable)
    } else {
        Ok(())
    }
}

/// The two rules no trigger bends: a guard that lets a pane sleep saw its
/// child exited and nobody watching.
pub proof fn law_live_or_watched_panes_never_sleep(f: DormancyFacts)
    ensures
        dormancy_guard_spec(f) is Ok ==> f.child_exited && !f.watched && f.has_runtime,
        !f.child_exited && f.pane_found && f.has_runtime ==> dormancy_guard_spec(f) == Err::<(), DormancyRefusal>(
            DormancyRefusal::ChildStillRunning,
        ),
{
}

/// One pane as the sweep sees it.
#[derive(Debug)]
pub struct SweepPane {
    pub terminal_id: String,
    pub has_runtime: bool,
    pub child_exited: bool,
    pub watched: bool,
}

/// How long since `since`, held at zero.
pub open spec fn elapsed(now: u64, since: u64) -> int {
    if now >= since { now - since } else { 0 }
}

/// The retired-since mark of a terminal in a ledger, if it has one (the
/// first entry wins).
pub open spec fn mark_of(ledger: Seq<(Seq<char>, u64)>, id: Seq<char>) -> Option<u64>
    decreases ledger.len(),
{
    if ledger.len() == 0 {
        None
    } else if ledger[0].0 == id {
        Some(ledger[0].1)
    } else {
        mark_of(ledger.drop_first(), id)
    }
}

/// The sweep over the first `n` panes: the ledger of panes retired now
/// (each keeping its earlier mark, else marked now), and the candidates.
pub open spec fn sweep_over(
    panes: Seq<SweepPane>,
    old_ledger: Seq<(Seq<char>, u64)>,
    now: u64,
    pressure: bool,
    n: nat,
) -> (Seq<(Seq<char>, u64)>, Seq<usize>)
    decreases n,
{
    if n == 0 {
        (Seq::empty(), Seq::empty())
    } else {
        let (ledger, cands) = sweep_over(panes, old_ledger, now, pressure, (n - 1) as nat);
        let p = panes[n - 1];
        if !(p.has_runtime && p.child_exited) {
            (ledger, cands)
        } else {
            let since = match mark_of(ledger, p.terminal_id@) {
                Some(s) => s,
                None => match mark_of(old_ledger, p.terminal_id@) {
                    Some(s) => s,
                    None => now,
                },
            };
            let ledger2 = if mark_of(ledger, p.terminal_id@) is Some {
                ledger
            } else {
                ledger.push((p.terminal_id@, since))
            };
            let quiet = elapsed(now, since) >= DORMANCY_QUIET_THRESHOLD_MS;
            let cands2 = if !p.watched && (pressure || quiet) { cands.push((n - 1) as usize) } else { cands };
            (ledger2, cands2)
        }
    }
}

/// The ledger as plain values.
pub open spec fn ledger_view(v: Seq<(String, u64)>) -> Seq<(Seq<char>, u64)> {
    v.map_values(|e: (String, u64)| (e.0@, e.1))
}

fn mark_in(ledger: &Vec<(String, u64)>, id: &String) -> (r: Option<u64>)
    ensures
        r == mark_of(ledger_view(ledger@), id@),
{
    let mut i: usize = 0;
    assert(ledger_view(ledger@).subrange(0, ledger@.len() as int) =~= ledger_view(ledger@));
    while i < ledger.len()
        invariant
            i <= ledger@.len(),
            mark_of(ledger_view(ledger@), id@) == mark_of(ledger_view(ledger@).subrange(i as int, ledger@.len() as int), id@),
        decreases ledger.len() - i,
    {
        let ghost rest = ledger_view(ledger@).subrange(i as int, ledger@.len() as int);
        assert(rest.drop_first() =~= ledger_view(ledger@).subrange(i + 1, ledger@.len() as int));
        if ledger[i].0 == *id {
            return Some(ledger[i].1);
        }
        i = i + 1;
    }
    None
}

/// The periodic sweep: which panes go to sleep, and the retired-since
/// ledger after it. Only a pane whose child exited is a candidate; a
/// watched one never is; memory pressure sleeps it at once, else a day of
/// retirement must pass first. A pane that came back to life leaves the
/// ledger, so its next retirement starts the quiet clock from zero.
pub fn dormancy_sweep(
    panes: &Vec<SweepPane>,
    ledger: &Vec<(String, u64)>,
    now: u64,
    pressure: bool,
) -> (r: (Vec<(String, u64)>, Vec<usize>))
    ensures
        (ledger_view(r.0@), r.1@) == sweep_over(panes@, ledger_view(ledger@), now, pressure, panes@.len()),
{
    let mut next: Vec<(String, u64)> = Vec::new();
    let mut cands: Vec<usize> = Vec::new();
    let mut i: usize = 0;
    while i < panes.len()
        invariant
            i <= panes@.len(),
            (ledger_view(next@), cands@) == sweep_over(panes@, ledger_view(ledger@), now, pressure, i as nat),
        decreases panes.len() - i,
    {
        let p = &panes[i];
        if p.has_runtime && p.child_exited {
            let known = mark_in(&next, &p.terminal_id);
            let since = match known {
                Some(s) => s,
                None => match mark_in(ledger, &p.terminal_id) {
                    Some(s) => s,
                    None => now,
                },
            };
            if known.is_none() {
                let ghost before = next@;
                next.push((p.terminal_id.clone(), since));
                assert(ledger_view(next@) =~= ledger_view(before).push((p.terminal_id@, since)));
            }
            let quiet = (if now >= since { now - since } else { 0 }) >= DORMANCY_QUIET_THRESHOLD_MS;
            if !p.watched && (pressure || quiet) {
                cands.push(i);
            }
        }
        i = i + 1;
    }
    (next, cands)
}

/// A sweep never puts a live or watched pane to sleep.
pub proof fn law_sweep_spares_live_and_watched(
    panes: Seq<SweepPane>,
    ledger: Seq<(Seq<char>, u64)>,
    now: u64,
    pressure: bool,
    n: nat,
)
    requires
        n <= panes.len(),
        panes.len() <= usize::MAX,
    ensures
        forall|k: int| 0 <= k < sweep_over(panes, ledger, now, pressure, n).1.len() ==> spared_ok(
            panes,
            #[trigger] sweep_over(panes, ledger, now, pressure, n).1[k],
            n,
        ),
    decreases n,
{
    if n > 0 {
        law_sweep_spares_live_and_watched(panes, ledger, now, pressure, (n - 1) as nat);
        let prev = sweep_over(panes, ledger, now, pressure, (n - 1) as nat).1;
        let cur = sweep_over(panes, ledger, now, pressure, n).1;
        let p = panes[n - 1];
        assert(cur == prev || (cur == prev.push((n - 1) as usize) && p.has_runtime && p.child_exited && !p.watched));
        assert forall|k: int| 0 <= k < cur.len() implies spared_ok(panes, #[trigger] cur[k], n) by {
            if k < prev.len() {
                assert(cur[k] == prev[k]);
                assert(spared_ok(panes, prev[k], (n - 1) as nat));
            } else {
                assert(cur[k] == (n - 1) as usize);
            }
        }
    }
}

/// A candidate lies among the first `n` panes, its child exited and nobody
/// watches it.
pub open spec fn spared_ok(panes: Seq<SweepPane>, i: usize, n: nat) -> bool {
    &&& i < n
    &&& panes[i as int].has_runtime && panes[i as int].child_exited
    &&& !panes[i as int].watched
}

/// A pane the sweep counts as retired: it has a runtime whose child exited.
pub open spec fn retired(p: SweepPane) -> bool {
    p.has_runtime && p.child_exited
}

/// When a retired terminal was first seen retired: its earlier mark, else
/// now.
pub open spec fn retired_since(old_ledger: Seq<(Seq<char>, u64)>, now: u64, id: Seq<char>) -> u64 {
    match mark_of(old_ledger, id) {
        Some(s) => s,
        None => now,
    }
}

/// Whether a pane goes to sleep in a sweep at `now`.
pub open spec fn sleeps(p: SweepPane, old_ledger: Seq<(Seq<char>, u64)>, now: u64, pressure: bool) -> bool {
    &&& retired(p)
    &&& !p.watched
    &&& (pressure || elapsed(now, retired_since(old_ledger, now, p.terminal_id@)) >= DORMANCY_QUIET_THRESHOLD_MS)
}

proof fn lemma_mark_of_push(ledger: Seq<(Seq<char>, u64)>, e: (Seq<char>, u64), x: Seq<char>)
    ensures
        mark_of(ledger.push(e), x) == (if mark_of(ledger, x) is Some {
            mark_of(ledger, x)
        } else if e.0 == x {
            Some(e.1)
        } else {
            None
        }),
    decreases ledger.len(),
{
    if ledger.len() == 0 {
        assert(ledger.push(e).drop_first() =~= Seq::<(Seq<char>, u64)>::empty());
    } else {
        assert(ledger.push(e)[0] == ledger[0]);
        assert(ledger.push(e).drop_first() =~= ledger.drop_first().push(e));
        lemma_mark_of_push(ledger.drop_first(), e, x);
    }
}

/// What holds of the sweep over the first `n` panes.
pub open spec fn sweep_ok(
    panes: Seq<SweepPane>,
    old_ledger: Seq<(Seq<char>, u64)>,
    now: u64,
    pressure: bool,
    n: nat,
    ledger: Seq<(Seq<char>, u64)>,
    cands: Seq<usize>,
) -> bool {
    &&& forall|x: Seq<char>| (#[trigger] mark_of(ledger, x) is Some) <==> exists|i: int| 0 <= i < n && retired(panes[i])
        && panes[i].terminal_id@ == x
    &&& forall|x: Seq<char>| (#[trigger] mark_of(ledger, x) is Some) ==> mark_of(ledger, x) == Some(retired_since(old_ledger, now, x))
    &&& forall|k: int| 0 <= k < cands.len() ==> (#[trigger] cands[k]) < n && sleeps(panes[cands[k] as int], old_ledger, now, pressure)
    &&& forall|j: int, k: int| 0 <= j < k < cands.len() ==> (#[trigger] cands[j]) < (#[trigger] cands[k])
    &&& forall|i: int| 0 <= i < n && sleeps(#[trigger] panes[i], old_ledger, now, pressure) ==> cands.contains(i as usize)
}

proof fn lemma_sweep_ok(panes: Seq<SweepPane>, old_ledger: Seq<(Seq<char>, u64)>, now: u64, pressure: bool, n: nat)
    requires
        n <= panes.len(),
        panes.len() <= usize::MAX,
    ensures
        sweep_ok(panes, old_ledger, now, pressure, n, sweep_over(panes, old_ledger, now, pressure, n).0, sweep_over(
            panes,
            old_ledger,
            now,
            pressure,
            n,
        ).1),
    decreases n,
{
    if n > 0 {
        let m = (n - 1) as nat;
        lemma_sweep_ok(panes, old_ledger, now, pressure, m);
        let (l, c) = sweep_over(panes, old_ledger, now, pressure, m);
        let (l2, c2) = sweep_over(panes, old_ledger, now, pressure, n);
        let p = panes[m as int];
        let id = p.terminal_id@;
        assert((m as usize) as int == m);
        if !retired(p) {
            assert(l2 == l && c2 == c);
            assert forall|x: Seq<char>| (#[trigger] mark_of(l2, x) is Some) <==> exists|i: int| 0 <= i < n && retired(panes[i])
                && panes[i].terminal_id@ == x by {
                if exists|i: int| 0 <= i < n && retired(panes[i]) && panes[i].terminal_id@ == x {
                    let i = choose|i: int| 0 <= i < n && retired(panes[i]) && panes[i].terminal_id@ == x;
                    assert(i < m);
                }
            }
            assert forall|i: int| 0 <= i < n && sleeps(#[trigger] panes[i], old_ledger, now, pressure) implies c2.contains(i as usize) by {
                assert(i < m);
            }
        } else {
            let since = match mark_of(l, id) {
                Some(s) => s,
                None => retired_since(old_ledger, now, id),
            };
            assert(since == retired_since(old_ledger, now, id));
            let e = (id, since);
            assert(l2 == (if mark_of(l, id) is Some { l } else { l.push(e) }));
            assert forall|x: Seq<char>| #[trigger] mark_of(l2, x) == (if mark_of(l, x) is Some {
                mark_of(l, x)
            } else if x == id {
                Some(since)
            } else {
                None
            }) by {
                if !(mark_of(l, id) is Some) {
                    lemma_mark_of_push(l, e, x);
                } else if x == id {
                }
            }
            assert forall|x: Seq<char>| (#[trigger] mark_of(l2, x) is Some) <==> exists|i: int| 0 <= i < n && retired(panes[i])
                && panes[i].terminal_id@ == x by {
                if exists|i: int| 0 <= i < n && retired(panes[i]) && panes[i].terminal_id@ == x {
                    let i = choose|i: int| 0 <= i < n && retired(panes[i]) && panes[i].terminal_id@ == x;
                    if i < m {
                        assert(mark_of(l, x) is Some);
                    }
                }
                if mark_of(l, x) is Some {
                    let i = choose|i: int| 0 <= i < m && retired(panes[i]) && panes[i].terminal_id@ == x;
                    assert(0 <= i < n);
                } else if x == id {
                    assert(retired(panes[m as int]) && panes[m as int].terminal_id@ == x);
                }
            }
            let q = sleeps(p, old_ledger, now, pressure);
            assert(c2 == (if q { c.push(m as usize) } else { c }));
            assert forall|k: int| 0 <= k < c2.len() implies (#[trigger] c2[k]) < n && sleeps(panes[c2[k] as int], old_ledger, now, pressure) by {
                if k < c.len() {
                    assert(c2[k] == c[k]);
                }
            }
            assert forall|j: int, k: int| 0 <= j < k < c2.len() implies (#[trigger] c2[j]) < (#[trigger] c2[k]) by {
                assert(c2[j] == c[j]);
                if k < c.len() {
                    assert(c2[k] == c[k]);
                }
            }
            assert forall|i: int| 0 <= i < n && sleeps(#[trigger] panes[i], old_ledger, now, pressure) implies c2.contains(i as usize) by {
                if i < m {
                    let w = choose|w: int| 0 <= w < c.len() && c[w] == i as usize;
                    assert(c2[w] == c[w]);
                } else {
                    assert(c2[c.len() as int] == m as usize);
                }
            }
        }
    }
}

/// The sweep, pane by pane: a pane goes to sleep exactly when it has a
/// runtime whose child exited, nobody watches its tab, and memory pressure
/// is high or it has been retired for the quiet threshold, counted from its
/// first retired sighting; so a pane with a live child is never touched,
/// even under pressure. Each sleeping pane is named once, in pane order.
/// The ledger afterwards knows exactly the terminals retired now, each with
/// its earlier mark or, if new, now: sightings of terminals no longer
/// retired are dropped.
pub proof fn law_dormancy_sweep(panes: Seq<SweepPane>, old_ledger: Seq<(Seq<char>, u64)>, now: u64, pressure: bool)
    requires
        panes.len() <= usize::MAX,
    ensures
        ({
            let (ledger, cands) = sweep_over(panes, old_ledger, now, pressure, panes.len());
            &&& forall|i: int| 0 <= i < panes.len() ==> (cands.contains(i as usize) <==> sleeps(
                #[trigger] panes[i],
                old_ledger,
                now,
                pressure,
            ))
            &&& forall|i: int| 0 <= i < panes.len() && !(#[trigger] panes[i]).child_exited ==> !cands.contains(i as usize)
            &&& forall|k: int| 0 <= k < cands.len() ==> (#[trigger] cands[k]) < panes.len()
            &&& forall|j: int, k: int| 0 <= j < k < cands.len() ==> (#[trigger] cands[j]) < (#[trigger] cands[k])
            &&& forall|x: Seq<char>| (#[trigger] mark_of(ledger, x) is Some) <==> exists|i: int| 0 <= i < panes.len()
                && retired(panes[i]) && panes[i].terminal_id@ == x
            &&& forall|x: Seq<char>| (#[trigger] mark_of(ledger, x) is Some) ==> mark_of(ledger, x) == Some(
                retired_since(old_ledger, now, x),
            )
        }),
{
    lemma_sweep_ok(panes, old_ledger, now, pressure, panes.len());
    let (ledger, cands) = sweep_over(panes, old_ledger, now, pressure, panes.len());
    assert forall|i: int| 0 <= i < panes.len() implies (cands.contains(i as usize) <==> sleeps(
        #[trigger] panes[i],
        old_ledger,
        now,
        pressure,
    )) by {
        if cands.contains(i as usize) {
            let w = choose|w: int| 0 <= w < cands.len() && cands[w] == i as usize;
            assert(cands[w] as int == i);
        }
    }
}

/// The candidates whose dormancy went through, in order.
pub open spec fn slept_ones(cands: Seq<usize>, outcomes: Seq<Result<(), DormancyRefusal>>) -> Seq<usize>
    decreases cands.len(),
{
    if cands.len() == 0 {
        Seq::empty()
    } else {
        let prev = slept_ones(cands.drop_last(), outcomes);
        if outcomes[cands.len() - 1] is Ok { prev.push(cands.last()) } else { prev }
    }
}

/// After the sweep made each candidate dormant (each re-checking its own
/// guards): the panes to announce as updated, and whether the sweep changed
/// anything, which it did exactly when some pane went to sleep.
pub fn sweep_outcome(cands: &Vec<usize>, outcomes: &Vec<Result<(), DormancyRefusal>>) -> (r: (Vec<usize>, bool))
    requires
        outcomes@.len() == cands@.len(),
    ensures
        r.0@ == slept_ones(cands@, outcomes@),
        r.1 == (r.0@.len() > 0),
        r.1 <==> exists|k: int| 0 <= k < outcomes@.len() && outcomes@[k] is Ok,
{
    let mut announced: Vec<usize> = Vec::new();
    let mut changed = false;
    let mut k: usize = 0;
    while k < cands.len()
        invariant
            k <= cands@.len(),
            outcomes@.len() == cands@.len(),
            announced@ == slept_ones(cands@.take(k as int), outcomes@),
            changed == (announced@.len() > 0),
            changed <==> exists|j: int| 0 <= j < k && outcomes@[j] is Ok,
        decreases cands.len() - k,
    {
        assert(cands@.take(k as int + 1).drop_last() =~= cands@.take(k as int));
        if outcomes[k].is_ok() {
            announced.push(cands[k]);
            changed = true;
        }
        k = k + 1;
    }
    assert(cands@.take(k as int) =~= cands@);
    (announced, changed)
}

/// A clock that lets a periodic check run at most once per interval.
#[derive(Debug, Clone, Copy, PartialEq, Eq, Structural)]
pub struct IntervalClock {
    pub next_at: Option<u64>,
}

impl IntervalClock {
    /// Whether the check runs at `now`; when it does, the next one is due
    /// one interval later.
    pub fn due(&mut self, now: u64) -> (r: bool)
        requires
            now <= u64::MAX - DORMANCY_SWEEP_INTERVAL_MS,
        ensures
            r == !(old(self).next_at matches Some(at) && now < at),
            r ==> final(self).next_at == Some((now + DORMANCY_SWEEP_INTERVAL_MS) as u64),
            !r ==> *final(self) == *old(self),
    {
        match self.next_at {
            Some(at) => if now < at {
                return false;
            },
            None => {},
        }
        self.next_at = Some(now + DORMANCY_SWEEP_INTERVAL_MS);
        true
    }
}

/// The idle server's clock: when retirement was last checked and since when
/// the session has been clientless and childless.
#[derive(Debug, Clone, Copy, PartialEq, Eq, Structural)]
pub struct RetirementClock {
    pub enabled: bool,
    pub check: IntervalClock,
    pub idle_since: Option<u64>,
}

/// One retirement check at `now`: the clock after it and its answer.
pub open spec fn retirement_spec(c: RetirementClock, now: u64, clients_attached: bool, any_live_child: bool) -> (RetirementClock, bool) {
    if !c.enabled || (c.check.next_at matches Some(at) && now < at) {
        (c, false)
    } else {
        let check = IntervalClock { next_at: Some((now + DORMANCY_SWEEP_INTERVAL_MS) as u64) };
        if clients_attached || any_live_child {
            (RetirementClock { check, idle_since: None, ..c }, false)
        } else {
            let since = match c.idle_since {
                Some(s) => s,
                None => now,
            };
            (RetirementClock { check, idle_since: Some(since), ..c }, elapsed(now, since) >= IDLE_SERVER_EXIT_GRACE_MS)
        }
    }
}

impl RetirementClock {
    /// Whether an idle server has earned retirement: only when the whole
    /// session has been clientless and childless for the grace period. The
    /// idle clock starts at the first idle sighting and resets the moment a
    /// client attaches or any child is alive; checks run at most once per
    /// interval.
    pub fn retirement_due(&mut self, now: u64, clients_attached: bool, any_live_child: bool) -> (r: bool)
        requires
            now <= u64::MAX - DORMANCY_SWEEP_INTERVAL_MS,
        ensures
            (*final(self), r) == retirement_spec(*old(self), now, clients_attached, any_live_child),
    {
        if !self.enabled {
            return false;
        }
        if !self.check.due(now) {
            return false;
        }
        if clients_attached || any_live_child {
            self.idle_since = None;
            return false;
        }
        let since = match self.idle_since {
            Some(s) => s,
            None => now,
        };
        self.idle_since = Some(since);
        (if now >= since { now - since } else { 0 }) >= IDLE_SERVER_EXIT_GRACE_MS
    }
}

/// A server with a live child never retires, however long its clock ran;
/// an attached client or a live child resets the idle clock, so idle time
/// from before it never counts; and a clientless, childless session whose
/// idle clock has run the whole grace retires at the next check.
pub proof fn law_retirement(c: RetirementClock, now: u64, later: u64, clients: bool)
    requires
        now <= u64::MAX - DORMANCY_SWEEP_INTERVAL_MS,
    ensures
        !retirement_spec(c, now, clients, true).1,
        retirement_spec(c, now, true, false).1 == false,
        c.enabled && !(c.check.next_at matches Some(at) && now < at) ==> retirement_spec(c, now, true, false).0.idle_since
            is None,
        ({
            let reset = retirement_spec(c, now, true, false).0;
            reset.idle_since is None && reset.enabled && !(reset.check.next_at matches Some(at) && later < at)
                ==> retirement_spec(reset, later, false, false).0.idle_since == Some(later) && !retirement_spec(
                reset,
                later,
                false,
                false,
            ).1
        }),
        c.enabled && !(c.check.next_at matches Some(at) && now < at) && (c.idle_since matches Some(s) && now >= s
            && now - s >= IDLE_SERVER_EXIT_GRACE_MS) ==> retirement_spec(c, now, false, false).1,
{
}

/// What waking a pane does.
#[derive(Debug, Clone, Copy, PartialEq, Eq, Structural)]
pub enum WakeAction {
    /// Nothing to wake: no such pane, or it is not dormant.
    Stay,
    /// An agent session with a resume plan: queue the resume and drop the
    /// saved scrollback unreplayed (the agent repaints its own transcript).
    ResumeAgent,
    /// Spawn the shell again, replaying the saved scrollback.
    RespawnWithHistory,
}

/// What waking a pane does: a pane that is not dormant is left alone, an
/// agent with a resume plan resumes, everything else respawns with its
/// history.
pub fn wake_action(pane_found: bool, dormant: bool, has_resume_plan: bool) -> (r: WakeAction)
    ensures
        r == (if !pane_found || !dormant {
            WakeAction::Stay
        } else if has_resume_plan {
            WakeAction::ResumeAgent
        } else {
            WakeAction::RespawnWithHistory
        }),
{
    if !pane_found || !dormant {
        WakeAction::Stay
    } else if has_resume_plan {
        WakeAction::ResumeAgent
    } else {
        WakeAction::RespawnWithHistory
    }
}

/// One pane of the session for the wake pass: its tab is watched, and it is
/// dormant.
#[derive(Debug, Clone, Copy, PartialEq, Eq, Structural)]
pub struct WakeCandidate {
    pub pane_id: u64,
    pub tab_watched: bool,
    pub dormant: bool,
}

/// The panes to wake: every dormant pane on a watched tab, in session order.
pub open spec fn to_wake_spec(panes: Seq<WakeCandidate>) -> Seq<u64>
    decreases panes.len(),
{
    if panes.len() == 0 {
        Seq::empty()
    } else {
        let prev = to_wake_spec(panes.drop_last());
        let p = panes.last();
        if p.tab_watched && p.dormant { prev.push(p.pane_id) } else { prev }
    }
}

/// The panes to wake: attach, tab switch, workspace switch and focus all end
/// with the pane's tab watched, so waking these covers every touch.
pub fn panes_to_wake(panes: &Vec<WakeCandidate>) -> (r: Vec<u64>)
    ensures
        r@ == to_wake_spec(panes@),
{
    let mut out: Vec<u64> = Vec::new();
    let mut i: usize = 0;
    while i < panes.len()
        invariant
            i <= panes@.len(),
            out@ == to_wake_spec(panes@.subrange(0, i as int)),
        decreases panes.len() - i,
    {
        assert(panes@.subrange(0, i + 1).drop_last() =~= panes@.subrange(0, i as int));
        let p = panes[i];
        if p.tab_watched && p.dormant {
            out.push(p.pane_id);
        }
        i = i + 1;
    }
    assert(panes@.subrange(0, i as int) =~= panes@);
    out
}


/// Where a dormant terminal's scrollback is kept, and the temporary file it
/// is first written to (then synced and renamed over it, so a crash never
/// leaves a torn history): `<terminal>.ansi` and `<terminal>.ansi.tmp` in
/// the dormant directory.
pub fn dormant_history_paths(dir: &str, terminal_id: &str) -> (r: (String, String))
    ensures
        r.0@ == path_join(dir@, terminal_id@ + ".ansi"@),
        r.1@ == path_join(dir@, terminal_id@ + ".ansi.tmp"@),
{
    let mut file = owned(terminal_id);
    push_text(&mut file, ".ansi");
    let mut tmp = owned(terminal_id);
    push_text(&mut tmp, ".ansi.tmp");
    (join_path(dir, file.as_str()), join_path(dir, tmp.as_str()))
}

/// A history is written only when there is one to keep: an absent or empty
/// capture sleeps the pane with no history file.
pub fn history_worth_keeping(history: Option<&str>) -> (r: bool)
    ensures
        r == (history matches Some(h) && h@.len() > 0),
{
    match history {
        Some(h) => !h.is_empty(),
        None => false,
    }
}

} // verus!
