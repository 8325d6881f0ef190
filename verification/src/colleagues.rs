//! The "Work with other agent..." picker: every other live agent, tagged by
//! how near it lives (same branch, same space, or a different space), the
//! nearest first, and a jump to the one you mean. Opening and selecting do
//! no runtime work; the jump is the application's.

use vstd::prelude::*;

use crate::bar_geometry::{
    centered_popup, centered_popup_spec, covering_index, first_covering, fits, popup_row_areas_spec,
    popup_row_hit_areas,
};
use crate::bar_keys::PanelKey;
use crate::geometry::CellRect;
use crate::text::{opt_chars, owned};

verus! {

/// How near a colleague lives to the agent the menu was opened on.
#[derive(Debug, Clone, Copy, PartialEq, Eq, Structural)]
pub enum ColleagueRelation {
    SameBranch,
    SameSpace,
    Elsewhere,
}

/// Nearness as a rank: the nearer, the smaller.
pub open spec fn rank(r: ColleagueRelation) -> int {
    match r {
        ColleagueRelation::SameBranch => 0,
        ColleagueRelation::SameSpace => 1,
        ColleagueRelation::Elsewhere => 2,
    }
}

pub open spec fn relation_label(r: ColleagueRelation) -> Seq<char> {
    match r {
        ColleagueRelation::SameBranch => "same branch"@,
        ColleagueRelation::SameSpace => "same space"@,
        ColleagueRelation::Elsewhere => "different space"@,
    }
}

impl ColleagueRelation {
    /// The tag a row wears.
    pub fn label(self) -> (r: &'static str)
        ensures
            r@ == relation_label(self),
    {
        match self {
            ColleagueRelation::SameBranch => "same branch",
            ColleagueRelation::SameSpace => "same space",
            ColleagueRelation::Elsewhere => "different space",
        }
    }
}

/// One live agent as the agent panel lists it: where it lives and what it
/// is called.
#[derive(Debug)]
pub struct ColleagueEntry {
    pub ws_idx: usize,
    pub tab_idx: usize,
    pub primary_label: String,
    pub agent_label: Option<String>,
}

/// One selectable colleague. `live` is false only for the placeholder row a
/// lonely agent sees: a dead-end action is explained, never silent.
#[derive(Debug, PartialEq)]
pub struct AgentColleagueRow {
    pub label: String,
    pub relation: Option<ColleagueRelation>,
    pub ws_idx: usize,
    pub tab_idx: usize,
    pub live: bool,
}

/// A row, as plain values.
pub struct ColleagueRowView {
    pub label: Seq<char>,
    pub relation: Option<ColleagueRelation>,
    pub ws_idx: usize,
    pub tab_idx: usize,
    pub live: bool,
}

impl View for AgentColleagueRow {
    type V = ColleagueRowView;

    open spec fn view(&self) -> ColleagueRowView {
        ColleagueRowView {
            label: self.label@,
            relation: self.relation,
            ws_idx: self.ws_idx,
            tab_idx: self.tab_idx,
            live: self.live,
        }
    }
}

pub open spec fn row_views(v: Seq<AgentColleagueRow>) -> Seq<ColleagueRowView> {
    v.map_values(|r: AgentColleagueRow| r@)
}

/// The space a workspace belongs to, when it belongs to one.
pub open spec fn space_of(spaces: Seq<Option<String>>, ws: usize) -> Option<Seq<char>> {
    if ws < spaces.len() { opt_chars(spaces[ws as int]) } else { None }
}

/// How near `entry` lives to the source: its own workspace is the same
/// branch; another workspace in the source's space is the same space;
/// everything else is elsewhere.
pub open spec fn relation_of(entry: ColleagueEntry, spaces: Seq<Option<String>>, source_ws: usize) -> ColleagueRelation {
    if entry.ws_idx == source_ws {
        ColleagueRelation::SameBranch
    } else if space_of(spaces, source_ws) is Some && space_of(spaces, entry.ws_idx) == space_of(spaces, source_ws) {
        ColleagueRelation::SameSpace
    } else {
        ColleagueRelation::Elsewhere
    }
}

/// The row of one colleague: its agent's name when it has one, else the
/// panel's label.
pub open spec fn colleague_row(entry: ColleagueEntry, spaces: Seq<Option<String>>, source_ws: usize) -> ColleagueRowView {
    ColleagueRowView {
        label: match entry.agent_label {
            Some(l) => l@,
            None => entry.primary_label@,
        },
        relation: Some(relation_of(entry, spaces, source_ws)),
        ws_idx: entry.ws_idx,
        tab_idx: entry.tab_idx,
        live: true,
    }
}

/// The rows of one nearness, in the panel's order; the source agent
/// itself is never among them.
pub open spec fn rows_of_rank(
    entries: Seq<ColleagueEntry>,
    spaces: Seq<Option<String>>,
    source_ws: usize,
    source_tab: usize,
    k: int,
) -> Seq<ColleagueRowView>
    decreases entries.len(),
{
    if entries.len() == 0 {
        Seq::empty()
    } else {
        let prev = rows_of_rank(entries.drop_last(), spaces, source_ws, source_tab, k);
        let e = entries.last();
        if !(e.ws_idx == source_ws && e.tab_idx == source_tab) && rank(relation_of(e, spaces, source_ws)) == k {
            prev.push(colleague_row(e, spaces, source_ws))
        } else {
            prev
        }
    }
}

/// Every other agent, nearest first; within one nearness the panel's own
/// order stands.
pub open spec fn colleague_rows_spec(
    entries: Seq<ColleagueEntry>,
    spaces: Seq<Option<String>>,
    source_ws: usize,
    source_tab: usize,
) -> Seq<ColleagueRowView> {
    rows_of_rank(entries, spaces, source_ws, source_tab, 0) + rows_of_rank(entries, spaces, source_ws, source_tab, 1)
        + rows_of_rank(entries, spaces, source_ws, source_tab, 2)
}

fn space_at(spaces: &Vec<Option<String>>, ws: usize) -> (r: Option<&String>)
    ensures
        match r {
            Some(s) => space_of(spaces@, ws) == Some(s@),
            None => space_of(spaces@, ws) is None,
        },
{
    if ws < spaces.len() {
        match &spaces[ws] {
            Some(s) => Some(s),
            None => None,
        }
    } else {
        None
    }
}

fn relation(entry: &ColleagueEntry, spaces: &Vec<Option<String>>, source_ws: usize) -> (r: ColleagueRelation)
    ensures
        r == relation_of(*entry, spaces@, source_ws),
{
    if entry.ws_idx == source_ws {
        return ColleagueRelation::SameBranch;
    }
    match space_at(spaces, source_ws) {
        Some(src) => match space_at(spaces, entry.ws_idx) {
            Some(s) => if *s == *src { ColleagueRelation::SameSpace } else { ColleagueRelation::Elsewhere },
            None => ColleagueRelation::Elsewhere,
        },
        None => ColleagueRelation::Elsewhere,
    }
}

fn rank_of(r: ColleagueRelation) -> (k: u8)
    ensures
        k == rank(r),
{
    match r {
        ColleagueRelation::SameBranch => 0,
        ColleagueRelation::SameSpace => 1,
        ColleagueRelation::Elsewhere => 2,
    }
}

fn push_rank(
    out: &mut Vec<AgentColleagueRow>,
    entries: &Vec<ColleagueEntry>,
    spaces: &Vec<Option<String>>,
    source_ws: usize,
    source_tab: usize,
    k: u8,
)
    ensures
        row_views(final(out)@) == row_views(old(out)@) + rows_of_rank(entries@, spaces@, source_ws, source_tab, k as int),
{
    let ghost start = row_views(out@);
    let mut i: usize = 0;
    while i < entries.len()
        invariant
            i <= entries@.len(),
            row_views(out@) == start + rows_of_rank(entries@.subrange(0, i as int), spaces@, source_ws, source_tab, k as int),
        decreases entries.len() - i,
    {
        let e = &entries[i];
        assert(entries@.subrange(0, i + 1).drop_last() =~= entries@.subrange(0, i as int));
        assert(entries@.subrange(0, i + 1).last() == *e);
        let rel = relation(e, spaces, source_ws);
        if !(e.ws_idx == source_ws && e.tab_idx == source_tab) && rank_of(rel) == k {
            let label = match &e.agent_label {
                Some(l) => l.clone(),
                None => e.primary_label.clone(),
            };
            let row = AgentColleagueRow { label, relation: Some(rel), ws_idx: e.ws_idx, tab_idx: e.tab_idx, live: true };
            let ghost before = out@;
            let ghost rv = row@;
            out.push(row);
            assert(row_views(out@) =~= row_views(before).push(rv));
        }
        i = i + 1;
    }
    assert(entries@.subrange(0, i as int) =~= entries@);
}

/// The rows the picker shows for a menu opened on `source_ws`/`source_tab`:
/// every other agent, nearest relation first. `spaces` holds each
/// workspace's effective space, as the sidebar reads it.
pub fn classify_colleagues(
    entries: Vec<ColleagueEntry>,
    spaces: &Vec<Option<String>>,
    source_ws: usize,
    source_tab: usize,
) -> (r: Vec<AgentColleagueRow>)
    ensures
        row_views(r@) == colleague_rows_spec(entries@, spaces@, source_ws, source_tab),
{
    let mut out: Vec<AgentColleagueRow> = Vec::new();
    assert(row_views(out@) =~= Seq::<ColleagueRowView>::empty());
    push_rank(&mut out, &entries, spaces, source_ws, source_tab, 0);
    push_rank(&mut out, &entries, spaces, source_ws, source_tab, 1);
    push_rank(&mut out, &entries, spaces, source_ws, source_tab, 2);
    assert(Seq::<ColleagueRowView>::empty() + rows_of_rank(entries@, spaces@, source_ws, source_tab, 0)
        =~= rows_of_rank(entries@, spaces@, source_ws, source_tab, 0));
    out
}

/// The placeholder a lonely agent sees.
pub open spec fn placeholder_row(source_ws: usize, source_tab: usize) -> ColleagueRowView {
    ColleagueRowView {
        label: "(no other agents running)"@,
        relation: None,
        ws_idx: source_ws,
        tab_idx: source_tab,
        live: false,
    }
}

/// The picker's state: its rows and the selected one.
#[derive(Debug, PartialEq)]
pub struct AgentColleaguePickerState {
    pub rows: Vec<AgentColleagueRow>,
    pub selected: usize,
}

/// What the application does after the picker answered a key.
#[derive(Debug, Clone, Copy, PartialEq, Eq, Structural)]
pub enum PickerOutcome {
    Nothing,
    Close,
    /// Focus this workspace and tab, then close.
    Jump { ws_idx: usize, tab_idx: usize },
}

impl AgentColleaguePickerState {
    /// The picker opened on the classified rows; a lonely agent gets the
    /// honest placeholder rather than a verb that silently does nothing.
    pub fn open(rows: Vec<AgentColleagueRow>, source_ws: usize, source_tab: usize) -> (r: Self)
        ensures
            r.selected == 0,
            rows@.len() > 0 ==> row_views(r.rows@) == row_views(rows@),
            rows@.len() == 0 ==> row_views(r.rows@) == seq![placeholder_row(source_ws, source_tab)],
    {
        let mut rows = rows;
        if rows.len() == 0 {
            rows.push(AgentColleagueRow {
                label: owned("(no other agents running)"),
                relation: None,
                ws_idx: source_ws,
                tab_idx: source_tab,
                live: false,
            });
            assert(row_views(rows@) =~= seq![placeholder_row(source_ws, source_tab)]);
        }
        AgentColleaguePickerState { rows, selected: 0 }
    }

    /// Where the selected row leads, when it is a live colleague.
    pub fn selection_target(&self) -> (r: Option<(usize, usize)>)
        ensures
            r == (if self.selected < self.rows@.len() && self.rows@[self.selected as int].live {
                Some((self.rows@[self.selected as int].ws_idx, self.rows@[self.selected as int].tab_idx))
            } else {
                None
            }),
    {
        if self.selected < self.rows.len() && self.rows[self.selected].live {
            Some((self.rows[self.selected].ws_idx, self.rows[self.selected].tab_idx))
        } else {
            None
        }
    }

    /// A key on the picker: Esc closes; Enter jumps to a live colleague (a
    /// dead row leaves the picker up); ↑/↓ (or k/j) move within the rows.
    pub fn handle_key(&mut self, key: PanelKey) -> (r: PickerOutcome)
        ensures
            final(self).rows == old(self).rows,
            key == PanelKey::Esc ==> r == PickerOutcome::Close && final(self).selected == old(self).selected,
            key == PanelKey::Enter ==> final(self).selected == old(self).selected && r == (
            if old(self).selected < old(self).rows@.len() && old(self).rows@[old(self).selected as int].live {
                PickerOutcome::Jump {
                    ws_idx: old(self).rows@[old(self).selected as int].ws_idx,
                    tab_idx: old(self).rows@[old(self).selected as int].tab_idx,
                }
            } else {
                PickerOutcome::Nothing
            }),
            key == PanelKey::Up || key == PanelKey::Char('k') ==> r == PickerOutcome::Nothing && final(self).selected == (
            if old(self).selected == 0 { 0 } else { (old(self).selected - 1) as usize }),
            key == PanelKey::Down || key == PanelKey::Char('j') ==> r == PickerOutcome::Nothing && final(self).selected == (
            if old(self).selected + 1 < old(self).rows@.len() { (old(self).selected + 1) as usize } else { old(self).selected }),
            !(key == PanelKey::Esc || key == PanelKey::Enter || key == PanelKey::Up || key == PanelKey::Char('k')
                || key == PanelKey::Down || key == PanelKey::Char('j')) ==> r == PickerOutcome::Nothing
                && final(self).selected == old(self).selected,
    {
        match key {
            PanelKey::Esc => PickerOutcome::Close,
            PanelKey::Enter => match self.selection_target() {
                Some((ws_idx, tab_idx)) => PickerOutcome::Jump { ws_idx, tab_idx },
                None => PickerOutcome::Nothing,
            },
            PanelKey::Up | PanelKey::Char('k') => {
                self.selected = self.selected.saturating_sub(1);
                PickerOutcome::Nothing
            },
            PanelKey::Down | PanelKey::Char('j') => {
                if self.selected.saturating_add(1) < self.rows.len() {
                    self.selected = self.selected + 1;
                }
                PickerOutcome::Nothing
            },
            _ => PickerOutcome::Nothing,
        }
    }
}

/// The picker's popup: 44 columns at most and four lines of chrome, the
/// reference picker's geometry.
pub fn colleague_popup_rect(area: CellRect, row_count: usize) -> (r: Option<CellRect>)
    requires
        fits(area),
    ensures
        r == centered_popup_spec(area, row_count, 44, 4),
{
    centered_popup(area, row_count, 44, 4)
}

/// The row a click at `(column, row)` lands on.
pub fn colleague_row_at(area: CellRect, row_count: usize, column: u16, row: u16) -> (r: Option<usize>)
    requires
        fits(area),
    ensures
        ({
            let i = first_covering(popup_row_areas_spec(area, row_count, 44, 4), column, row);
            r == (if i >= 0 { Some(i as usize) } else { None::<usize> })
        }),
{
    let areas = popup_row_hit_areas(area, row_count, 44, 4);
    covering_index(&areas, column, row)
}

/// Nearness leads: in the picker's rows no farther colleague stands before
/// a nearer one, the source agent is never offered, and every row is live.
pub proof fn law_colleagues_sorted_by_nearness(
    entries: Seq<ColleagueEntry>,
    spaces: Seq<Option<String>>,
    source_ws: usize,
    source_tab: usize,
)
    ensures
        ({
            let rows = colleague_rows_spec(entries, spaces, source_ws, source_tab);
            &&& forall|i: int, j: int| 0 <= i < j < rows.len() ==> rank(rows[i].relation->0) <= rank(rows[j].relation->0)
            &&& forall|i: int| 0 <= i < rows.len() ==> rows[i].live && rows[i].relation is Some
            &&& forall|i: int| 0 <= i < rows.len() ==> !(rows[i].ws_idx == source_ws && rows[i].tab_idx == source_tab)
        }),
{
    lemma_rank_rows(entries, spaces, source_ws, source_tab, 0);
    lemma_rank_rows(entries, spaces, source_ws, source_tab, 1);
    lemma_rank_rows(entries, spaces, source_ws, source_tab, 2);
    let a = rows_of_rank(entries, spaces, source_ws, source_tab, 0);
    let b = rows_of_rank(entries, spaces, source_ws, source_tab, 1);
    let c = rows_of_rank(entries, spaces, source_ws, source_tab, 2);
    let rows = a + b + c;
    assert forall|i: int| 0 <= i < rows.len() implies rank(rows[i].relation->0) == (if i < a.len() {
        0int
    } else if i < a.len() + b.len() {
        1int
    } else {
        2int
    }) && rows[i].live && rows[i].relation is Some && !(rows[i].ws_idx == source_ws && rows[i].tab_idx == source_tab) by {
        if i < a.len() {
            assert(rows[i] == a[i]);
        } else if i < a.len() + b.len() {
            assert(rows[i] == b[i - a.len()]);
        } else {
            assert(rows[i] == c[i - a.len() - b.len()]);
        }
    }
}

proof fn lemma_rank_rows(entries: Seq<ColleagueEntry>, spaces: Seq<Option<String>>, source_ws: usize, source_tab: usize, k: int)
    ensures
        forall|i: int| 0 <= i < rows_of_rank(entries, spaces, source_ws, source_tab, k).len() ==> {
            let r = #[trigger] rows_of_rank(entries, spaces, source_ws, source_tab, k)[i];
            &&& r.relation is Some
            &&& rank(r.relation->0) == k
            &&& r.live
            &&& !(r.ws_idx == source_ws && r.tab_idx == source_tab)
        },
    decreases entries.len(),
{
    if entries.len() > 0 {
        lemma_rank_rows(entries.drop_last(), spaces, source_ws, source_tab, k);
    }
}

} // verus!
