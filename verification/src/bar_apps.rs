//! The Apps face of the bar panel: an inventory of what each configured
//! section shows and which app a press on it reaches. A grouped run of
//! sections folds into one row, the same folding the frame draws.

use vstd::prelude::*;

use crate::bar_config::{
    bar_on, edge_config, ActionView, SectionView, ShellBarConfig, ShellBarSectionActionConfig,
    ShellBarSectionConfig, WidgetView, section_views,
};
use crate::bar_config_panel::{panel_rows_spec, BarConfigPanelState, BarPanelTab};
use crate::text::{
    debug_quoted, debug_text, chars_of, index_of, lemma_index_of, opt_chars, owned, position_of, push_text, str_equal,
    string_from_chars, texts, trim_start, trimmed_start,
};

verus! {

/// The separator between the parts of one row.
pub open spec fn dot_sep() -> Seq<char> {
    " \u{b7} "@
}

/// The parts joined by `sep`.
pub open spec fn join(parts: Seq<Seq<char>>, sep: Seq<char>) -> Seq<char>
    decreases parts.len(),
{
    if parts.len() == 0 {
        Seq::empty()
    } else if parts.len() == 1 {
        parts[0]
    } else {
        join(parts.drop_last(), sep) + sep + parts.last()
    }
}

/// The strings joined by `sep`.
pub fn join_texts(parts: &Vec<String>, sep: &str) -> (r: String)
    ensures
        r@ == join(texts(parts@), sep@),
{
    let mut out = String::new();
    let mut k: usize = 0;
    while k < parts.len()
        invariant
            k <= parts@.len(),
            out@ == join(texts(parts@).subrange(0, k as int), sep@),
        decreases parts.len() - k,
    {
        let ghost before = texts(parts@).subrange(0, k as int);
        let ghost after = texts(parts@).subrange(0, k + 1);
        assert(after.drop_last() =~= before);
        if k > 0 {
            push_text(&mut out, sep);
        } else {
            assert(before =~= Seq::<Seq<char>>::empty());
        }
        push_text(&mut out, parts[k].as_str());
        k = k + 1;
    }
    assert(texts(parts@).subrange(0, k as int) =~= texts(parts@));
    out
}

/// What a widget of `kind` with a metric shows.
pub open spec fn is_metric_kind(kind: Seq<char>) -> bool {
    kind == "resource"@ || kind == "meter"@ || kind == "sparkline"@
}

/// What one section's widget puts on the strip, in the config's own words.
pub open spec fn widget_summary_spec(section: SectionView) -> Seq<char> {
    let w = section.widget;
    if w.kind.len() == 0 {
        if section.kind.len() == 0 { "bare"@ } else { section.kind }
    } else if w.kind == "label"@ {
        if w.text.len() == 0 { "label"@ } else { "label \""@ + w.text + "\""@ }
    } else if is_metric_kind(w.kind) {
        if w.metric.len() == 0 { w.kind } else { w.kind + " "@ + w.metric }
    } else if w.kind == "icon"@ {
        if w.glyph.len() > 0 {
            "icon "@ + w.glyph
        } else if w.art.len() > 0 {
            "icon "@ + w.art
        } else if w.pixels.len() > 0 {
            "icon custom"@
        } else {
            "icon"@
        }
    } else if w.kind == "clock"@ {
        "clock "@ + (if w.format.len() == 0 { "%H:%M"@ } else { w.format })
    } else {
        w.kind
    }
}

/// `prefix` followed by `text`.
fn concat(prefix: &str, text: &str) -> (r: String)
    ensures
        r@ == prefix@ + text@,
{
    let mut s = owned(prefix);
    push_text(&mut s, text);
    s
}

/// What one section's widget puts on the strip.
pub fn widget_summary(section: &ShellBarSectionConfig) -> (r: String)
    ensures
        r@ == widget_summary_spec(section@),
{
    let widget = &section.widget;
    let kind = widget.kind.as_str();
    if kind.is_empty() {
        if section.kind.as_str().is_empty() { owned("bare") } else { section.kind.clone() }
    } else if str_equal(kind, "label") {
        if widget.text.as_str().is_empty() {
            owned("label")
        } else {
            let mut s = concat("label \"", widget.text.as_str());
            push_text(&mut s, "\"");
            s
        }
    } else if str_equal(kind, "resource") || str_equal(kind, "meter") || str_equal(kind, "sparkline") {
        if widget.metric.as_str().is_empty() {
            widget.kind.clone()
        } else {
            let mut s = concat(kind, " ");
            push_text(&mut s, widget.metric.as_str());
            s
        }
    } else if str_equal(kind, "icon") {
        if !widget.glyph.as_str().is_empty() {
            concat("icon ", widget.glyph.as_str())
        } else if !widget.art.as_str().is_empty() {
            concat("icon ", widget.art.as_str())
        } else if widget.pixels.len() > 0 {
            owned("icon custom")
        } else {
            owned("icon")
        }
    } else if str_equal(kind, "clock") {
        if widget.format.as_str().is_empty() {
            concat("clock ", "%H:%M")
        } else {
            concat("clock ", widget.format.as_str())
        }
    } else {
        widget.kind.clone()
    }
}

/// What follows the last `/` of a path, or all of it when there is none.
pub open spec fn after_last_slash(s: Seq<char>) -> Seq<char>
    decreases s.len(),
{
    if s.len() == 0 {
        s
    } else if s.last() == '/' {
        Seq::empty()
    } else {
        after_last_slash(s.drop_last()).push(s.last())
    }
}

/// The program's name without its directory.
fn base_name(s: &str) -> (r: String)
    ensures
        r@ == after_last_slash(s@),
{
    let cs = chars_of(s);
    let mut cur: Vec<char> = Vec::new();
    let mut i: usize = 0;
    while i < cs.len()
        invariant
            cs@ == s@,
            i <= cs@.len(),
            cur@ == after_last_slash(s@.subrange(0, i as int)),
        decreases cs.len() - i,
    {
        assert(s@.subrange(0, i + 1).drop_last() =~= s@.subrange(0, i as int));
        if cs[i] == '/' {
            cur = Vec::new();
            assert(cur@ =~= Seq::<char>::empty());
        } else {
            cur.push(cs[i]);
        }
        i = i + 1;
    }
    assert(s@.subrange(0, i as int) =~= s@);
    string_from_chars(&cur)
}

/// The program a press starts, named without its directory.
pub open spec fn program_spec(a: ActionView) -> Seq<char> {
    if a.argv.len() == 0 { Seq::empty() } else { after_last_slash(a.argv[0]) }
}

/// Which app (or road) a primary press on a section reaches; `None` for an
/// indicator that consumes clicks inertly.
pub open spec fn action_summary_spec(a: ActionView) -> Option<Seq<char>> {
    if a.kind.len() == 0 || a.kind == "none"@ {
        None
    } else if a.kind == "popup"@ {
        Some(trim_start(program_spec(a) + " [popup]"@))
    } else if a.kind == "run"@ {
        Some(trim_start(program_spec(a) + " [run]"@))
    } else if a.kind == "workspace"@ {
        Some("workspace "@ + a.name)
    } else if a.kind == "plugin"@ {
        Some("plugin "@ + a.command)
    } else if a.kind == "hide"@ {
        Some("hide bar"@)
    } else {
        Some(a.kind)
    }
}

fn program(action: &ShellBarSectionActionConfig) -> (r: String)
    ensures
        r@ == program_spec(action@),
{
    if action.argv.len() == 0 {
        String::new()
    } else {
        assert(action@.argv[0] == action.argv@[0]@);
        base_name(action.argv[0].as_str())
    }
}

/// Which app a primary press on the section reaches.
pub fn action_summary(action: &ShellBarSectionActionConfig) -> (r: Option<String>)
    ensures
        opt_chars(r) == action_summary_spec(action@),
{
    let kind = action.kind.as_str();
    if kind.is_empty() || str_equal(kind, "none") {
        None
    } else if str_equal(kind, "popup") {
        let mut s = program(action);
        push_text(&mut s, " [popup]");
        Some(trimmed_start(s.as_str()))
    } else if str_equal(kind, "run") {
        let mut s = program(action);
        push_text(&mut s, " [run]");
        Some(trimmed_start(s.as_str()))
    } else if str_equal(kind, "workspace") {
        Some(concat("workspace ", action.name.as_str()))
    } else if str_equal(kind, "plugin") {
        Some(concat("plugin ", action.command.as_str()))
    } else if str_equal(kind, "hide") {
        Some(owned("hide bar"))
    } else {
        Some(action.kind.clone())
    }
}

/// Where the section walk stands: the rows closed so far, the run being
/// gathered, and the group that run belongs to.
pub struct RunWalk {
    pub rows: Seq<Seq<usize>>,
    pub run: Seq<usize>,
    pub group: Seq<char>,
}

/// A gathered run becomes a row; an empty one does not.
pub open spec fn flushed(rows: Seq<Seq<usize>>, run: Seq<usize>) -> Seq<Seq<usize>> {
    if run.len() == 0 { rows } else { rows.push(run) }
}

/// One section joins the walk: it continues the run when it names the
/// run's non-empty group, else closes the run and starts its own; an
/// ungrouped section is a row by itself.
pub open spec fn walk_step(w: RunWalk, idx: usize, s: SectionView) -> RunWalk {
    let grouped = s.group.len() > 0 && s.group == w.group && w.run.len() > 0;
    let w1 = if grouped { w } else { RunWalk { rows: flushed(w.rows, w.run), run: Seq::empty(), group: s.group } };
    let run = w1.run.push(idx);
    if s.group.len() == 0 {
        RunWalk { rows: flushed(w1.rows, run), run: Seq::empty(), group: Seq::empty() }
    } else {
        RunWalk { rows: w1.rows, run, group: w1.group }
    }
}

/// The walk over the first `n` sections.
pub open spec fn walk(secs: Seq<SectionView>, n: nat) -> RunWalk
    decreases n,
{
    if n == 0 {
        RunWalk { rows: Seq::empty(), run: Seq::empty(), group: Seq::empty() }
    } else {
        walk_step(walk(secs, (n - 1) as nat), (n - 1) as usize, secs[n - 1])
    }
}

/// The runs of a bar's sections: adjacent sections naming one group fold
/// into one run; every other section is a run by itself.
pub open spec fn runs(secs: Seq<SectionView>) -> Seq<Seq<usize>> {
    let w = walk(secs, secs.len());
    flushed(w.rows, w.run)
}

/// One inventory row, as plain values.
pub struct AppRowView {
    pub section_indices: Seq<usize>,
    pub shows: Seq<char>,
    pub does: Seq<char>,
    pub live: bool,
    pub section_id: Option<Seq<char>>,
}

/// The distinct press summaries of a run, in order of first appearance.
pub open spec fn does_parts(secs: Seq<SectionView>, run: Seq<usize>) -> Seq<Seq<char>>
    decreases run.len(),
{
    if run.len() == 0 {
        Seq::empty()
    } else {
        let prev = does_parts(secs, run.drop_last());
        match action_summary_spec(secs[run.last() as int].action) {
            Some(d) => if prev.contains(d) { prev } else { prev.push(d) },
            None => prev,
        }
    }
}

/// The first place in `run` whose section has a press, or `-1`.
pub open spec fn first_live(secs: Seq<SectionView>, run: Seq<usize>) -> int
    decreases run.len(),
{
    if run.len() == 0 {
        -1
    } else {
        let p = first_live(secs, run.drop_last());
        if p >= 0 {
            p
        } else if action_summary_spec(secs[run.last() as int].action) is Some {
            run.len() - 1
        } else {
            -1
        }
    }
}

/// The first place in `run` whose section carries an id, or `-1`.
pub open spec fn first_identified(secs: Seq<SectionView>, run: Seq<usize>) -> int
    decreases run.len(),
{
    if run.len() == 0 {
        -1
    } else {
        let p = first_identified(secs, run.drop_last());
        if p >= 0 {
            p
        } else if secs[run.last() as int].id.len() > 0 {
            run.len() - 1
        } else {
            -1
        }
    }
}

/// The id the edit form binds to: the first section with a press speaks for
/// the row, else the first identified one; an empty id binds nothing.
pub open spec fn row_section_id(secs: Seq<SectionView>, run: Seq<usize>) -> Option<Seq<char>> {
    let l = first_live(secs, run);
    let i = first_identified(secs, run);
    let id = if l >= 0 {
        secs[run[l] as int].id
    } else if i >= 0 {
        secs[run[i] as int].id
    } else {
        Seq::empty()
    };
    if id.len() > 0 { Some(id) } else { None }
}

/// What a run's sections show, one summary each.
pub open spec fn run_summaries(secs: Seq<SectionView>, run: Seq<usize>) -> Seq<Seq<char>> {
    run.map_values(|i: usize| widget_summary_spec(secs[i as int]))
}

/// The inventory row of one run.
pub open spec fn row_of(secs: Seq<SectionView>, run: Seq<usize>) -> AppRowView {
    let parts = does_parts(secs, run);
    AppRowView {
        section_indices: run,
        shows: join(run_summaries(secs, run), dot_sep()),
        does: if parts.len() > 0 { "\u{2192} "@ + join(parts, dot_sep()) } else { "\u{2014}"@ },
        live: parts.len() > 0,
        section_id: row_section_id(secs, run),
    }
}

/// The row an undivided strip shows.
pub open spec fn undivided_row() -> AppRowView {
    AppRowView {
        section_indices: Seq::empty(),
        shows: "undivided strip"@,
        does: "\u{2014}"@,
        live: false,
        section_id: None,
    }
}

/// The Apps face's rows for a bar: one per run, or the one honest row of an
/// undivided strip.
pub open spec fn app_rows_spec(secs: Seq<SectionView>) -> Seq<AppRowView> {
    if secs.len() == 0 {
        seq![undivided_row()]
    } else {
        runs(secs).map_values(|run: Seq<usize>| row_of(secs, run))
    }
}

/// One inventory row of the Apps face. `section_indices` are the true
/// indices of the row's sections, so a press can still name a real one.
#[derive(Debug, PartialEq)]
pub struct BarAppRow {
    pub section_indices: Vec<usize>,
    pub shows: String,
    pub does: String,
    /// Whether Enter has a primary action to run; a dead-end row is offered
    /// greyed, never silent.
    pub live: bool,
    /// The id the edit form would bind an override to; `None` when no
    /// section of the row carries one.
    pub section_id: Option<String>,
}

impl View for BarAppRow {
    type V = AppRowView;

    open spec fn view(&self) -> AppRowView {
        AppRowView {
            section_indices: self.section_indices@,
            shows: self.shows@,
            does: self.does@,
            live: self.live,
            section_id: opt_chars(self.section_id),
        }
    }
}

/// The rows, each as plain values.
pub open spec fn row_views(v: Seq<BarAppRow>) -> Seq<AppRowView> {
    v.map_values(|r: BarAppRow| r@)
}

fn run_row(sections: &Vec<ShellBarSectionConfig>, run: Vec<usize>) -> (r: BarAppRow)
    requires
        forall|k: int| 0 <= k < run@.len() ==> run@[k] < sections@.len(),
    ensures
        r@ == row_of(section_views(sections@), run@),
{
    let ghost secs = section_views(sections@);
    let mut summaries: Vec<String> = Vec::new();
    let mut parts: Vec<String> = Vec::new();
    let mut live_at: Option<usize> = None;
    let mut id_at: Option<usize> = None;
    let mut k: usize = 0;
    while k < run.len()
        invariant
            secs == section_views(sections@),
            forall|j: int| 0 <= j < run@.len() ==> run@[j] < sections@.len(),
            k <= run@.len(),
            texts(summaries@) == run_summaries(secs, run@.subrange(0, k as int)),
            texts(parts@) == does_parts(secs, run@.subrange(0, k as int)),
            match live_at {
                Some(p) => p == first_live(secs, run@.subrange(0, k as int)),
                None => first_live(secs, run@.subrange(0, k as int)) == -1,
            },
            match id_at {
                Some(p) => p == first_identified(secs, run@.subrange(0, k as int)),
                None => first_identified(secs, run@.subrange(0, k as int)) == -1,
            },
        decreases run.len() - k,
    {
        let ghost pre = run@.subrange(0, k as int);
        let ghost post = run@.subrange(0, k + 1);
        assert(post.drop_last() =~= pre);
        assert(post.last() == run@[k as int]);
        let idx = run[k];
        let section = &sections[idx];
        assert(secs[idx as int] == section@);
        let ghost prev_summaries = summaries@;
        let ws = widget_summary(section);
        let ghost wsv = ws@;
        summaries.push(ws);
        assert(texts(summaries@) =~= texts(prev_summaries).push(wsv));
        assert(run_summaries(secs, post) =~= run_summaries(secs, pre).push(wsv));
        let summary = action_summary(&section.action);
        match summary {
            Some(d) => {
                proof {
                    lemma_index_of(texts(parts@), d@);
                }
                if position_of(&parts, d.as_str()).is_none() {
                    let ghost before = parts@;
                    parts.push(d);
                    assert(texts(parts@) =~= texts(before).push(d@));
                }
                if live_at.is_none() {
                    live_at = Some(k);
                }
            },
            None => {},
        }
        if id_at.is_none() && !section.id.as_str().is_empty() {
            id_at = Some(k);
        }
        k = k + 1;
    }
    assert(run@.subrange(0, k as int) =~= run@);
    let shows = join_texts(&summaries, " \u{b7} ");
    let live = parts.len() > 0;
    let does = if live {
        let mut s = owned("\u{2192} ");
        let j = join_texts(&parts, " \u{b7} ");
        push_text(&mut s, j.as_str());
        s
    } else {
        owned("\u{2014}")
    };
    proof {
        lemma_first_in_run(secs, run@);
    }
    let chosen: Option<usize> = match live_at {
        Some(p) => Some(run[p]),
        None => match id_at {
            Some(p) => Some(run[p]),
            None => None,
        },
    };
    let section_id = match chosen {
        Some(idx) => {
            if sections[idx].id.as_str().is_empty() { None } else { Some(sections[idx].id.clone()) }
        },
        None => None,
    };
    BarAppRow { section_indices: run, shows, does, live, section_id }
}

proof fn lemma_first_in_run(secs: Seq<SectionView>, run: Seq<usize>)
    ensures
        -1 <= first_live(secs, run) < run.len(),
        -1 <= first_identified(secs, run) < run.len(),
    decreases run.len(),
{
    if run.len() > 0 {
        lemma_first_in_run(secs, run.drop_last());
    }
}

/// The Apps face's rows for one bar.
pub fn section_app_rows(bar: &ShellBarConfig) -> (r: Vec<BarAppRow>)
    ensures
        row_views(r@) == app_rows_spec(bar@.sections),
{
    let ghost secs = bar@.sections;
    if bar.sections.len() == 0 {
        let r = vec![BarAppRow {
            section_indices: Vec::new(),
            shows: owned("undivided strip"),
            does: owned("\u{2014}"),
            live: false,
            section_id: None,
        }];
        assert(r@[0]@.section_indices =~= Seq::<usize>::empty());
        assert(row_views(r@) =~= seq![undivided_row()]);
        return r;
    }
    let sections = &bar.sections;
    let mut rows: Vec<BarAppRow> = Vec::new();
    let mut run: Vec<usize> = Vec::new();
    let mut run_group = String::new();
    let mut idx: usize = 0;
    while idx < sections.len()
        invariant
            secs == section_views(sections@),
            idx <= sections@.len(),
            forall|k: int| 0 <= k < run@.len() ==> run@[k] < idx,
            row_views(rows@) == walk(secs, idx as nat).rows.map_values(|run: Seq<usize>| row_of(secs, run)),
            run@ == walk(secs, idx as nat).run,
            run_group@ == walk(secs, idx as nat).group,
        decreases sections.len() - idx,
    {
        let section = &sections[idx];
        assert(secs[idx as int] == section@);
        let ghost w = walk(secs, idx as nat);
        let grouped = !section.group.as_str().is_empty() && section.group == run_group && run.len() > 0;
        if !grouped {
            if run.len() > 0 {
                let done = run;
                run = Vec::new();
                let ghost before = rows@;
                rows.push(run_row(sections, done));
                assert(row_views(rows@) =~= row_views(before).push(row_of(secs, w.run)));
                assert(flushed(w.rows, w.run).map_values(|run: Seq<usize>| row_of(secs, run)) =~= w.rows.map_values(
                    |run: Seq<usize>| row_of(secs, run),
                ).push(row_of(secs, w.run)));
            } else {
                assert(flushed(w.rows, w.run) == w.rows);
            }
            run_group = section.group.clone();
        }
        run.push(idx);
        if section.group.as_str().is_empty() {
            let done = run;
                run = Vec::new();
            let ghost before = rows@;
            let ghost mid_rows = if grouped { w.rows } else { flushed(w.rows, w.run) };
            rows.push(run_row(sections, done));
            assert(row_views(rows@) =~= row_views(before).push(row_of(secs, done@)));
            assert(mid_rows.push(done@).map_values(|run: Seq<usize>| row_of(secs, run)) =~= mid_rows.map_values(
                |run: Seq<usize>| row_of(secs, run),
            ).push(row_of(secs, done@)));
            run_group = String::new();
        }
        assert(run@ =~= walk(secs, (idx + 1) as nat).run);
        idx = idx + 1;
    }
    if run.len() > 0 {
        let ghost w = walk(secs, idx as nat);
        let ghost before = rows@;
        let done = run;
                run = Vec::new();
        rows.push(run_row(sections, done));
        assert(row_views(rows@) =~= row_views(before).push(row_of(secs, w.run)));
        assert(w.rows.push(w.run).map_values(|run: Seq<usize>| row_of(secs, run)) =~= w.rows.map_values(
            |run: Seq<usize>| row_of(secs, run),
        ).push(row_of(secs, w.run)));
    }
    rows
}

impl BarConfigPanelState {
    /// The Apps inventory of the focused edge. It reads the snapshot, never
    /// the draft: it is what the disk's bar does today, and a knob turned on
    /// the other face does not rewrite it until Apply lands it.
    pub fn app_rows(&self) -> (r: Vec<BarAppRow>)
        ensures
            row_views(r@) == app_rows_spec(bar_on(self.original@, self.edge).sections),
    {
        section_app_rows(edge_config(&self.original, self.edge))
    }

    /// How many selectable rows the forward face offers; while the editor
    /// is open its six fields are the rows.
    pub fn forward_row_count(&self) -> (r: usize)
        ensures
            r == (if self.edit is Some {
                6
            } else if self.tab == BarPanelTab::Apps {
                app_rows_spec(bar_on(self.original@, self.edge).sections).len()
            } else {
                panel_rows_spec(self.edge).len()
            }),
    {
        if self.edit.is_some() {
            return 6;
        }
        match self.tab {
            BarPanelTab::Apps => self.app_rows().len(),
            BarPanelTab::Configure => self.rows().len(),
        }
    }
}


/// The first action among a row's sections that a press can reach: the
/// first section, in the row's order, that exists and whose action has a
/// summary. A dead-end row has none.
pub open spec fn first_live_action(indices: Seq<usize>, sections: Seq<SectionView>) -> Option<ActionView>
    decreases indices.len(),
{
    if indices.len() == 0 {
        None
    } else if indices[0] < sections.len() && action_summary_spec(sections[indices[0] as int].action) is Some {
        Some(sections[indices[0] as int].action)
    } else {
        first_live_action(indices.drop_first(), sections)
    }
}

/// Where a press on an Apps row goes.
#[derive(Debug, PartialEq)]
pub enum AppRowRoute {
    /// The row reaches nothing.
    Nothing,
    /// Open a popup running this argv, at this size.
    Popup(ShellBarSectionActionConfig),
    /// Run this argv.
    Run(ShellBarSectionActionConfig),
    /// Focus the workspace with this name.
    Workspace(String),
    /// The action fires only from its own section; this is what to say.
    FromTheBar(String),
}

/// What a press on an Apps row does with its action: popups and runs go the
/// bar's own roads, a workspace action focuses the workspace by name, and
/// any other kind is told to fire from its section.
pub open spec fn route_spec(action: Option<ActionView>, route: AppRowRoute) -> bool {
    match action {
        None => route == AppRowRoute::Nothing,
        Some(a) => if a.kind == "popup"@ {
            route matches AppRowRoute::Popup(c) && c@ == a
        } else if a.kind == "run"@ {
            route matches AppRowRoute::Run(c) && c@ == a
        } else if a.kind == "workspace"@ {
            route matches AppRowRoute::Workspace(n) && n@ == a.name
        } else {
            route matches AppRowRoute::FromTheBar(m) && m@ == "a "@ + debug_quoted(a.kind) + " action fires from its own section"@
        },
    }
}

impl BarConfigPanelState {
    /// Where a press on the Apps row at `row_idx` goes. The action lookup is
    /// the liveness guard: a dead-end row finds no action and does nothing.
    pub fn app_row_route(&self, row_idx: usize) -> (r: AppRowRoute)
        ensures
            ({
                let secs = bar_on(self.original@, self.edge).sections;
                let rows = app_rows_spec(secs);
                route_spec(if row_idx < rows.len() { first_live_action(rows[row_idx as int].section_indices, secs) } else { None }, r)
            }),
    {
        let rows = self.app_rows();
        if row_idx >= rows.len() {
            return AppRowRoute::Nothing;
        }
        let bar = edge_config(&self.original, self.edge);
        let ghost secs = bar@.sections;
        let indices = &rows[row_idx].section_indices;
        assert(indices@ == row_views(rows@)[row_idx as int].section_indices);
        let mut found: Option<ShellBarSectionActionConfig> = None;
        let mut k: usize = 0;
        assert(indices@.skip(0) =~= indices@);
        while k < indices.len() && found.is_none()
            invariant
                secs == bar@.sections,
                secs == section_views(bar.sections@),
                k <= indices@.len(),
                found is None ==> first_live_action(indices@, secs) == first_live_action(indices@.skip(k as int), secs),
                found matches Some(c) ==> Some(c@) == first_live_action(indices@, secs),
            decreases indices.len() - k,
        {
            let i = indices[k];
            assert(indices@.skip(k as int).drop_first() =~= indices@.skip(k + 1));
            if i < bar.sections.len() {
                let action = &bar.sections[i].action;
                assert(secs[i as int].action == action@);
                if action_summary(action).is_some() {
                    found = Some(action.clone());
                }
            }
            k = k + 1;
        }
        if found.is_none() {
            assert(indices@.skip(k as int) =~= Seq::<usize>::empty());
        }
        let action = match found {
            Some(a) => a,
            None => {
                return AppRowRoute::Nothing;
            },
        };
        if str_equal(action.kind.as_str(), "popup") {
            AppRowRoute::Popup(action)
        } else if str_equal(action.kind.as_str(), "run") {
            AppRowRoute::Run(action)
        } else if str_equal(action.kind.as_str(), "workspace") {
            AppRowRoute::Workspace(action.name)
        } else {
            let mut m = owned("a ");
            let q = debug_text(action.kind.as_str());
            push_text(&mut m, q.as_str());
            push_text(&mut m, " action fires from its own section");
            AppRowRoute::FromTheBar(m)
        }
    }
}

/// What a workspace action says when no open workspace carries its name.
pub fn workspace_missing_message(name: &str) -> (r: String)
    ensures
        r@ == "nothing open is called "@ + debug_quoted(name@),
{
    let mut m = owned("nothing open is called ");
    let q = debug_text(name);
    push_text(&mut m, q.as_str());
    m
}

/// The indices `0..n`, in order.
pub open spec fn index_range(n: nat) -> Seq<usize> {
    Seq::new(n, |i: int| i as usize)
}

/// A row's sections all name one group, and a row of more than one section
/// names a non-empty one: an ungrouped section stands alone.
pub open spec fn one_group_run(secs: Seq<SectionView>, run: Seq<usize>) -> bool {
    &&& run.len() > 0
    &&& forall|k: int| 0 <= k < run.len() ==> secs[#[trigger] run[k] as int].group == secs[run[0] as int].group
    &&& run.len() > 1 ==> secs[run[0] as int].group.len() > 0
}

/// Two adjacent rows that the folding would have joined: the first ends in
/// a section whose non-empty group the second begins with.
pub open spec fn would_join(secs: Seq<SectionView>, a: Seq<usize>, b: Seq<usize>) -> bool {
    let g = secs[a.last() as int].group;
    g.len() > 0 && g == secs[b[0] as int].group
}

/// No two adjacent runs would have been joined.
pub open spec fn runs_apart(secs: Seq<SectionView>, rs: Seq<Seq<usize>>) -> bool {
    forall|i: int| 0 <= i < rs.len() - 1 ==> !would_join(secs, #[trigger] rs[i], rs[i + 1])
}

/// What holds of the walk after its first `n` sections.
pub open spec fn walk_ok(secs: Seq<SectionView>, w: RunWalk, n: nat) -> bool {
    &&& flushed(w.rows, w.run).flatten() == index_range(n)
    &&& forall|k: int| 0 <= k < w.rows.len() ==> one_group_run(secs, #[trigger] w.rows[k])
    &&& w.run.len() > 0 ==> w.group.len() > 0 && forall|k: int| 0 <= k < w.run.len() ==> secs[#[trigger] w.run[k] as int].group == w.group
    &&& w.run.len() == 0 && w.rows.len() > 0 ==> secs[w.rows.last().last() as int].group.len() == 0
    &&& runs_apart(secs, flushed(w.rows, w.run))
}

proof fn lemma_walk_ok(secs: Seq<SectionView>, n: nat)
    requires
        n <= secs.len(),
        secs.len() <= usize::MAX,
    ensures
        walk_ok(secs, walk(secs, n), n),
    decreases n,
{
    broadcast use vstd::seq::Seq::lemma_flatten_push;
    if n == 0 {
        let w = walk(secs, 0);
        assert(flushed(w.rows, w.run) =~= Seq::<Seq<usize>>::empty());
        assert(index_range(0) =~= Seq::<usize>::empty());
    } else {
        let m = (n - 1) as nat;
        lemma_walk_ok(secs, m);
        let w = walk(secs, m);
        let idx = m as usize;
        let s = secs[m as int];
        assert(idx as int == m);
        let w2 = walk(secs, n);
        assert(w2 == walk_step(w, idx, s));
        assert(index_range(m) + seq![idx] =~= index_range(n));
        let old_list = flushed(w.rows, w.run);
        let grouped = s.group.len() > 0 && s.group == w.group && w.run.len() > 0;
        if grouped {
            let run2 = w.run.push(idx);
            assert(w2.rows == w.rows && w2.run == run2 && w2.group == w.group);
            assert(w.rows.push(run2).flatten() =~= w.rows.flatten() + w.run + seq![idx]);
            assert(w.rows.push(w.run).flatten() == w.rows.flatten() + w.run);
            assert forall|k: int| 0 <= k < run2.len() implies secs[#[trigger] run2[k] as int].group == w2.group by {
                if k < w.run.len() {
                    assert(run2[k] == w.run[k]);
                }
            }
            let nl = flushed(w2.rows, w2.run);
            assert(nl == w.rows.push(run2));
            assert forall|i: int| 0 <= i < nl.len() - 1 implies !would_join(secs, #[trigger] nl[i], nl[i + 1]) by {
                assert(nl[i] == old_list[i]);
                if i + 1 < w.rows.len() {
                    assert(nl[i + 1] == old_list[i + 1]);
                } else {
                    assert(nl[i + 1] == run2);
                    assert(old_list[i + 1] == w.run);
                    assert(run2[0] == w.run[0]);
                }
            }
            assert(nl.flatten() == index_range(n));
        } else {
            let rows1 = old_list;
            assert forall|k: int| 0 <= k < rows1.len() implies one_group_run(secs, #[trigger] rows1[k]) by {
                if k < w.rows.len() {
                    assert(rows1[k] == w.rows[k]);
                } else {
                    assert(rows1[k] == w.run);
                    assert forall|j: int| 0 <= j < w.run.len() implies secs[#[trigger] w.run[j] as int].group == secs[w.run[0] as int].group by {
                        assert(secs[w.run[j] as int].group == w.group);
                        assert(secs[w.run[0] as int].group == w.group);
                    }
                    assert(secs[w.run[0] as int].group == w.group);
                }
            }
            let single = seq![idx];
            assert(one_group_run(secs, single));
            let nl = rows1.push(single);
            assert(nl.flatten() =~= rows1.flatten() + single);
            // The run closed before this section would not have taken it.
            assert(rows1.len() > 0 ==> !would_join(secs, rows1.last(), single)) by {
                if rows1.len() > 0 {
                    if w.run.len() > 0 {
                        assert(rows1.last() == w.run);
                        assert(secs[w.run.last() as int].group == w.group) by {
                            assert(w.run.last() == w.run[w.run.len() - 1]);
                        }
                    } else {
                        assert(rows1 == w.rows);
                    }
                }
            }
            assert forall|i: int| 0 <= i < nl.len() - 1 implies !would_join(secs, #[trigger] nl[i], nl[i + 1]) by {
                assert(nl[i] == rows1[i]);
                if i + 1 < rows1.len() {
                    assert(nl[i + 1] == rows1[i + 1]);
                } else {
                    assert(nl[i + 1] == single);
                    assert(rows1[i] == rows1.last());
                }
            }
            if s.group.len() == 0 {
                assert(w2.rows == nl && w2.run.len() == 0);
                assert(flushed(w2.rows, w2.run) == nl);
                assert forall|k: int| 0 <= k < nl.len() implies one_group_run(secs, #[trigger] nl[k]) by {
                    if k < rows1.len() {
                        assert(nl[k] == rows1[k]);
                    }
                }
                assert(nl.last().last() == idx);
                assert(nl.flatten() == index_range(n));
            } else {
                assert(w2.rows == rows1 && w2.run == single && w2.group == s.group);
                assert(flushed(w2.rows, w2.run) == nl);
                assert(nl.flatten() == index_range(n));
            }
        }
    }
}

/// A press summary shows in a run's "does" exactly when one of its
/// sections has one.
proof fn lemma_does_parts_live(secs: Seq<SectionView>, run: Seq<usize>)
    ensures
        does_parts(secs, run).len() > 0 <==> exists|j: int| 0 <= j < run.len()
            && action_summary_spec(secs[#[trigger] run[j] as int].action) is Some,
    decreases run.len(),
{
    if run.len() > 0 {
        let pre = run.drop_last();
        lemma_does_parts_live(secs, pre);
        if does_parts(secs, pre).len() > 0 {
            let j = choose|j: int| 0 <= j < pre.len() && action_summary_spec(secs[#[trigger] pre[j] as int].action) is Some;
            assert(run[j] == pre[j]);
        } else {
            if action_summary_spec(secs[run.last() as int].action) is Some {
                assert(run[run.len() - 1] == run.last());
            } else {
                assert forall|j: int| 0 <= j < run.len() implies !(action_summary_spec(secs[#[trigger] run[j] as int].action) is Some) by {
                    if j < pre.len() {
                        assert(run[j] == pre[j]);
                    }
                }
            }
        }
    }
}

/// The Apps rows of a bar: an undivided strip shows one honest row;
/// otherwise the rows' sections, read in order, are the bar's sections
/// `0..n` each once, every row is a maximal run of adjacent sections naming
/// one non-empty group (an ungrouped section is its own row), a row is live
/// exactly when one of its sections has a press, and a row that is not live
/// says it does nothing.
pub proof fn law_app_rows_partition(secs: Seq<SectionView>)
    requires
        secs.len() <= usize::MAX,
    ensures
        secs.len() == 0 ==> app_rows_spec(secs) == seq![undivided_row()],
        secs.len() > 0 ==> ({
            let rows = app_rows_spec(secs);
            &&& rows.map_values(|r: AppRowView| r.section_indices).flatten() == index_range(secs.len())
            &&& forall|k: int| 0 <= k < rows.len() ==> one_group_run(secs, (#[trigger] rows[k]).section_indices)
            &&& forall|k: int| 0 <= k < rows.len() - 1 ==> !would_join(
                secs,
                (#[trigger] rows[k]).section_indices,
                rows[k + 1].section_indices,
            )
            &&& forall|k: int| 0 <= k < rows.len() ==> ((#[trigger] rows[k]).live <==> exists|j: int|
                0 <= j < rows[k].section_indices.len()
                    && action_summary_spec(secs[#[trigger] rows[k].section_indices[j] as int].action) is Some)
            &&& forall|k: int| 0 <= k < rows.len() ==> ((#[trigger] rows[k]).does == "\u{2014}"@ <==> !rows[k].live)
        }),
{
    if secs.len() > 0 {
        lemma_walk_ok(secs, secs.len());
        let rs = runs(secs);
        let rows = app_rows_spec(secs);
        let w = walk(secs, secs.len());
        assert(rs == flushed(w.rows, w.run));
        assert(rows.map_values(|r: AppRowView| r.section_indices) =~= rs);
        assert forall|k: int| 0 <= k < rows.len() implies one_group_run(secs, (#[trigger] rows[k]).section_indices) by {
            assert(rows[k].section_indices == rs[k]);
            if k < w.rows.len() {
                assert(rs[k] == w.rows[k]);
            } else {
                assert(rs[k] == w.run);
                assert(secs[w.run[0] as int].group == w.group);
                assert forall|j: int| 0 <= j < w.run.len() implies secs[#[trigger] w.run[j] as int].group == secs[w.run[0] as int].group by {
                    assert(secs[w.run[j] as int].group == w.group);
                }
            }
        }
        assert forall|k: int| 0 <= k < rows.len() - 1 implies !would_join(
            secs,
            (#[trigger] rows[k]).section_indices,
            rows[k + 1].section_indices,
        ) by {
            assert(rows[k].section_indices == rs[k]);
            assert(rows[k + 1].section_indices == rs[k + 1]);
        }
        reveal_strlit("\u{2014}");
        reveal_strlit("\u{2192} ");
        assert forall|k: int| 0 <= k < rows.len() implies ((#[trigger] rows[k]).live <==> exists|j: int|
            0 <= j < rows[k].section_indices.len()
                && action_summary_spec(secs[#[trigger] rows[k].section_indices[j] as int].action) is Some)
            && (rows[k].does == "\u{2014}"@ <==> !rows[k].live) by {
            assert(rows[k] == row_of(secs, rs[k]));
            lemma_does_parts_live(secs, rs[k]);
            let parts = does_parts(secs, rs[k]);
            if parts.len() > 0 {
                let d = "\u{2192} "@ + join(parts, dot_sep());
                assert(d[0] != "\u{2014}"@[0]);
            }
        }
    }
}

} // verus!
