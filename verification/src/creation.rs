//! Where new terminals start, which workspace a creation starts from, and
//! how the interchangeable daily workspaces are folded into one. The
//! environment, the runtimes and the pane moves are the caller's; it hands
//! in what it read as plain values.

use vstd::prelude::*;

use crate::paths::{join_path, path_join};
use crate::text::{chars_of, opt_chars, string_from_chars};

verus! {

/// Where a new terminal starts.
#[derive(Debug, PartialEq, Eq)]
pub enum NewTerminalCwdConfig {
    /// The focused pane's directory, else home, else the process directory.
    Follow,
    /// Home, else the process directory.
    Home,
    /// The process directory.
    Current,
    /// A configured directory, with a leading `~` already expanded.
    Path(String),
}

/// The directory a new terminal starts in: `/` when nothing else answers.
pub open spec fn new_terminal_cwd_spec(
    policy: NewTerminalCwdConfig,
    follow_cwd: Option<Seq<char>>,
    home: Option<Seq<char>>,
    current_dir: Option<Seq<char>>,
) -> Seq<char> {
    let fallback = match current_dir {
        Some(c) => c,
        None => "/"@,
    };
    let from_home = match home {
        Some(h) => h,
        None => fallback,
    };
    match policy {
        NewTerminalCwdConfig::Follow => match follow_cwd {
            Some(f) => f,
            None => from_home,
        },
        NewTerminalCwdConfig::Home => from_home,
        NewTerminalCwdConfig::Current => fallback,
        NewTerminalCwdConfig::Path(p) => p@,
    }
}

/// The directory a new terminal starts in, from the policy, the followed
/// pane's directory, `HOME` and the process directory as the caller read
/// them.
pub fn resolve_new_terminal_cwd(
    policy: &NewTerminalCwdConfig,
    follow_cwd: Option<String>,
    home: Option<String>,
    current_dir: Option<String>,
) -> (r: String)
    ensures
        r@ == new_terminal_cwd_spec(*policy, opt_chars(follow_cwd), opt_chars(home), opt_chars(current_dir)),
{
    match policy {
        NewTerminalCwdConfig::Path(p) => p.clone(),
        NewTerminalCwdConfig::Current => match current_dir {
            Some(c) => c,
            None => String::from_str("/"),
        },
        NewTerminalCwdConfig::Home => match home {
            Some(h) => h,
            None => match current_dir {
                Some(c) => c,
                None => String::from_str("/"),
            },
        },
        NewTerminalCwdConfig::Follow => match follow_cwd {
            Some(f) => f,
            None => match home {
                Some(h) => h,
                None => match current_dir {
                    Some(c) => c,
                    None => String::from_str("/"),
                },
            },
        },
    }
}

/// A configured directory with a leading `~` read as home: `~` alone is
/// home, `~/rest` is `rest` under home, and anything else (or any path when
/// home is unknown) stays as written.
pub open spec fn expanded_spec(path: Seq<char>, home: Option<Seq<char>>) -> Seq<char> {
    match home {
        None => path,
        Some(h) => if path == seq!['~'] {
            h
        } else if path.len() >= 2 && path[0] == '~' && path[1] == '/' {
            path_join(h, path.subrange(2, path.len() as int))
        } else {
            path
        },
    }
}

/// Expand a leading `~` of a configured directory against home.
pub fn expand_tilde_path(path: &str, home: Option<&str>) -> (r: String)
    ensures
        r@ == expanded_spec(
            path@,
            match home {
                Some(h) => Some(h@),
                None => None,
            },
        ),
{
    let h = match home {
        Some(h) => h,
        None => {
            return String::from_str(path);
        },
    };
    let chars = chars_of(path);
    if chars.len() == 1 && chars[0] == '~' {
        assert(path@ =~= seq!['~']);
        return String::from_str(h);
    }
    if chars.len() >= 2 && chars[0] == '~' && chars[1] == '/' {
        assert(path@ != seq!['~']);
        let mut rest: Vec<char> = Vec::new();
        let mut i: usize = 2;
        while i < chars.len()
            invariant
                chars@ == path@,
                2 <= i <= chars@.len(),
                rest@ == chars@.subrange(2, i as int),
            decreases chars.len() - i,
        {
            rest.push(chars[i]);
            i = i + 1;
            assert(rest@ =~= chars@.subrange(2, i as int));
        }
        let tail = string_from_chars(&rest);
        return join_path(h, tail.as_str());
    }
    proof {
        if path@ == seq!['~'] {
            assert(chars@.len() == 1 && chars@[0] == '~');
        }
    }
    String::from_str(path)
}

/// The directory a terminal's next pane starts in: what its running
/// program last reported, else the directory the terminal was opened in.
pub fn launch_cwd_for_terminal(runtime_follow_cwd: Option<String>, recorded_cwd: Option<String>) -> (r: Option<String>)
    ensures
        opt_chars(r) == match opt_chars(runtime_follow_cwd) {
            Some(f) => Some(f),
            None => opt_chars(recorded_cwd),
        },
{
    match runtime_follow_cwd {
        Some(f) => Some(f),
        None => recorded_cwd,
    }
}

/// The workspace a creation starts from: while navigating, the selected
/// workspace when it exists; otherwise the active one, else the selected one
/// when it exists.
pub open spec fn creation_source_spec(navigating: bool, selected: usize, active: Option<usize>, workspace_count: usize) -> Option<usize> {
    if navigating && selected < workspace_count {
        Some(selected)
    } else {
        match active {
            Some(a) => Some(a),
            None => if selected < workspace_count { Some(selected) } else { None },
        }
    }
}

/// Which workspace a creation starts from.
pub fn workspace_creation_source(navigating: bool, selected: usize, active: Option<usize>, workspace_count: usize) -> (r: Option<usize>)
    ensures
        r == creation_source_spec(navigating, selected, active, workspace_count),
{
    if navigating && selected < workspace_count {
        return Some(selected);
    }
    match active {
        Some(a) => Some(a),
        None => if selected < workspace_count {
            Some(selected)
        } else {
            None
        },
    }
}

/// The public ids among a workspace's panes, in order; a pane without one is
/// skipped.
pub open spec fn present_ids(panes: Seq<Option<String>>) -> Seq<String>
    decreases panes.len(),
{
    if panes.len() == 0 {
        Seq::empty()
    } else {
        let prev = present_ids(panes.drop_last());
        match panes.last() {
            Some(id) => prev.push(id),
            None => prev,
        }
    }
}

/// The panes that move, in the order of the mergeable workspaces: every
/// pane of every mergeable workspace but the target, skipping indices that
/// name no workspace.
pub open spec fn merge_sources(mergeable: Seq<usize>, target: usize, panes: Seq<Seq<Option<String>>>) -> Seq<String>
    decreases mergeable.len(),
{
    if mergeable.len() == 0 {
        Seq::empty()
    } else {
        let prev = merge_sources(mergeable.drop_last(), target, panes);
        let w = mergeable.last();
        if w == target || w >= panes.len() {
            prev
        } else {
            prev + present_ids(panes[w as int])
        }
    }
}

/// The fold of the daily workspaces: nothing unless at least two are
/// mergeable and the target names a workspace; then every other mergeable
/// workspace's panes move, each into a new tab of the target.
pub open spec fn daily_merge_spec(
    mergeable: Seq<usize>,
    target: Option<usize>,
    workspace_ids: Seq<String>,
    panes: Seq<Seq<Option<String>>>,
) -> Option<(String, Seq<String>)> {
    if mergeable.len() < 2 {
        None
    } else {
        match target {
            None => None,
            Some(t) => if t >= workspace_ids.len() {
                None
            } else {
                Some((workspace_ids[t as int], merge_sources(mergeable, t, panes)))
            },
        }
    }
}

fn present_ids_of(panes: &Vec<Option<String>>) -> (r: Vec<String>)
    ensures
        r@ == present_ids(panes@),
{
    let mut out: Vec<String> = Vec::new();
    let mut i: usize = 0;
    while i < panes.len()
        invariant
            i <= panes@.len(),
            out@ == present_ids(panes@.take(i as int)),
        decreases panes.len() - i,
    {
        assert(panes@.take(i + 1).drop_last() =~= panes@.take(i as int));
        match &panes[i] {
            Some(id) => out.push(id.clone()),
            None => {},
        }
        i = i + 1;
    }
    assert(panes@.take(i as int) =~= panes@);
    out
}

/// Plan the fold of the interchangeable daily workspaces into one:
/// `mergeable` lists their indices, `target` the one that survives,
/// `workspace_ids` every workspace's id and `panes` every workspace's pane
/// ids. The ids are gathered before any pane moves, since a move that
/// empties a workspace removes it and shifts every later index. Nothing is
/// closed: each listed pane moves into a new, unfocused tab of the target.
pub fn merge_daily_workspaces(
    mergeable: &Vec<usize>,
    target: Option<usize>,
    workspace_ids: &Vec<String>,
    panes: &Vec<Vec<Option<String>>>,
) -> (r: Option<(String, Vec<String>)>)
    ensures
        match (r, daily_merge_spec(mergeable@, target, workspace_ids@, panes@.map_values(|v: Vec<Option<String>>| v@))) {
            (Some((id, moves)), Some((sid, smoves))) => id == sid && moves@ == smoves,
            (None, None) => true,
            _ => false,
        },
{
    let ghost views = panes@.map_values(|v: Vec<Option<String>>| v@);
    if mergeable.len() < 2 {
        return None;
    }
    let t = match target {
        Some(t) => t,
        None => {
            return None;
        },
    };
    if t >= workspace_ids.len() {
        return None;
    }
    let target_id = workspace_ids[t].clone();
    let mut sources: Vec<String> = Vec::new();
    let mut i: usize = 0;
    while i < mergeable.len()
        invariant
            i <= mergeable@.len(),
            views == panes@.map_values(|v: Vec<Option<String>>| v@),
            sources@ == merge_sources(mergeable@.take(i as int), t, views),
        decreases mergeable.len() - i,
    {
        assert(mergeable@.take(i + 1).drop_last() =~= mergeable@.take(i as int));
        let w = mergeable[i];
        if w != t && w < panes.len() {
            let ids = present_ids_of(&panes[w]);
            let mut k: usize = 0;
            let ghost before = sources@;
            while k < ids.len()
                invariant
                    k <= ids@.len(),
                    sources@ == before + ids@.take(k as int),
                decreases ids.len() - k,
            {
                sources.push(ids[k].clone());
                k = k + 1;
                assert(sources@ =~= before + ids@.take(k as int));
            }
            assert(ids@.take(k as int) =~= ids@);
            assert(views[w as int] == panes@[w as int]@);
        }
        i = i + 1;
    }
    assert(mergeable@.take(i as int) =~= mergeable@);
    Some((target_id, sources))
}

/// Folding moves only panes of the other interchangeable workspaces: every
/// pane id in the plan belongs to a mergeable workspace that is not the
/// survivor.
pub proof fn law_merge_moves_only_other_workspaces_panes(
    mergeable: Seq<usize>,
    target: usize,
    panes: Seq<Seq<Option<String>>>,
    id: String,
)
    requires
        merge_sources(mergeable, target, panes).contains(id),
    ensures
        exists|j: int|
            0 <= j < mergeable.len() && mergeable[j] != target && mergeable[j] < panes.len() && #[trigger] present_ids(
                panes[mergeable[j] as int],
            ).contains(id),
    decreases mergeable.len(),
{
    let rest = mergeable.drop_last();
    let prev = merge_sources(rest, target, panes);
    let w = mergeable.last();
    if w == target || w >= panes.len() || prev.contains(id) {
        law_merge_moves_only_other_workspaces_panes(rest, target, panes, id);
        let j = choose|j: int|
            0 <= j < rest.len() && rest[j] != target && rest[j] < panes.len() && #[trigger] present_ids(
                panes[rest[j] as int],
            ).contains(id);
        assert(mergeable[j] == rest[j]);
        assert(present_ids(panes[mergeable[j] as int]).contains(id));
    } else {
        let tail = present_ids(panes[w as int]);
        let all = prev + tail;
        let k = choose|k: int| 0 <= k < all.len() && all[k] == id;
        assert(k >= prev.len());
        assert(tail[k - prev.len()] == id);
        assert(mergeable[mergeable.len() - 1] == w);
        assert(tail.contains(id));
        assert(present_ids(panes[mergeable[mergeable.len() - 1] as int]).contains(id));
    }
}

} // verus!
