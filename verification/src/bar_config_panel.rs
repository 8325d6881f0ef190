//! The bar configuration panel: right-press a strip and every knob it answers
//! to is one popup away (the switch, style, border, size, colour, backdrop),
//! plus the scope choice ("this bar" / "all bars") and the other edges'
//! switches. Opening snapshots the loaded bars, every adjustment edits a
//! draft, and the diff between the two is exactly what Apply persists.

use vstd::prelude::*;

use crate::bar_config::{
    bar_color_tokens, bar_color_tokens_spec, bar_on, edge_config, edge_config_mut, with_bar,
    BarEdge, BarView, BarsView, ManagedBarOverride, OverrideView, ShellBarConfig, ShellBarsConfig,
    override_is_empty,
};
use crate::bar_edit::BarAppEditForm;
use crate::text::{
    clone_opt, index_of, lemma_index_of, opt_chars, owned, position_of, str_equal,
    str_position_of, strs, texts,
};

verus! {

/// Every edge, in the order the panel lists them.
pub open spec fn panel_edges() -> Seq<BarEdge> {
    seq![BarEdge::Top, BarEdge::Bottom, BarEdge::Left, BarEdge::Right]
}

/// The name an edge goes by in the overlay file.
pub open spec fn edge_name(edge: BarEdge) -> Seq<char> {
    match edge {
        BarEdge::Top => "top"@,
        BarEdge::Bottom => "bottom"@,
        BarEdge::Left => "left"@,
        BarEdge::Right => "right"@,
    }
}

/// The name an edge goes by in the overlay file.
pub fn bar_edge_name(edge: BarEdge) -> (r: &'static str)
    ensures
        r@ == edge_name(edge),
{
    match edge {
        BarEdge::Top => "top",
        BarEdge::Bottom => "bottom",
        BarEdge::Left => "left",
        BarEdge::Right => "right",
    }
}

/// Each edge goes by its own word in the overlay file, and no two edges
/// share a name, so one edge's override is never written under another's.
pub proof fn law_edge_names_are_distinct(a: BarEdge, b: BarEdge)
    ensures
        edge_name(BarEdge::Top) == "top"@,
        edge_name(BarEdge::Bottom) == "bottom"@,
        edge_name(BarEdge::Left) == "left"@,
        edge_name(BarEdge::Right) == "right"@,
        edge_name(a) == edge_name(b) ==> a == b,
{
    reveal_strlit("top");
    reveal_strlit("bottom");
    reveal_strlit("left");
    reveal_strlit("right");
    if a != b {
        match (a, b) {
            (BarEdge::Top, BarEdge::Bottom) | (BarEdge::Bottom, BarEdge::Top) | (BarEdge::Top, BarEdge::Right) | (
                BarEdge::Right,
                BarEdge::Top,
            ) | (BarEdge::Left, BarEdge::Right) | (BarEdge::Right, BarEdge::Left) | (BarEdge::Bottom, BarEdge::Right) | (
                BarEdge::Right,
                BarEdge::Bottom,
            ) | (BarEdge::Bottom, BarEdge::Left) | (BarEdge::Left, BarEdge::Bottom) => {
                assert(edge_name(a).len() != edge_name(b).len());
            },
            (BarEdge::Top, BarEdge::Left) | (BarEdge::Left, BarEdge::Top) => {
                assert(edge_name(a)[0] != edge_name(b)[0]);
            },
            _ => {},
        }
    }
}

/// One selectable row of the panel, top to bottom.
#[derive(Debug, Clone, Copy, PartialEq, Eq, Structural)]
pub enum BarPanelRow {
    Enabled,
    Style,
    Border,
    Size,
    Color,
    Background,
    Scope,
    OtherBar(BarEdge),
    Apply,
    Cancel,
}

/// The switches of the three edges other than `edge`, in panel order.
pub open spec fn other_bar_rows(edge: BarEdge) -> Seq<BarPanelRow> {
    match edge {
        BarEdge::Top => seq![
            BarPanelRow::OtherBar(BarEdge::Bottom),
            BarPanelRow::OtherBar(BarEdge::Left),
            BarPanelRow::OtherBar(BarEdge::Right),
        ],
        BarEdge::Bottom => seq![
            BarPanelRow::OtherBar(BarEdge::Top),
            BarPanelRow::OtherBar(BarEdge::Left),
            BarPanelRow::OtherBar(BarEdge::Right),
        ],
        BarEdge::Left => seq![
            BarPanelRow::OtherBar(BarEdge::Top),
            BarPanelRow::OtherBar(BarEdge::Bottom),
            BarPanelRow::OtherBar(BarEdge::Right),
        ],
        BarEdge::Right => seq![
            BarPanelRow::OtherBar(BarEdge::Top),
            BarPanelRow::OtherBar(BarEdge::Bottom),
            BarPanelRow::OtherBar(BarEdge::Left),
        ],
    }
}

/// The rows for a bar on `edge`: six knobs for that edge, the scope choice,
/// the other three edges' switches, then the two verbs.
pub open spec fn panel_rows_spec(edge: BarEdge) -> Seq<BarPanelRow> {
    seq![
        BarPanelRow::Enabled,
        BarPanelRow::Style,
        BarPanelRow::Border,
        BarPanelRow::Size,
        BarPanelRow::Color,
        BarPanelRow::Background,
        BarPanelRow::Scope,
    ] + other_bar_rows(edge) + seq![BarPanelRow::Apply, BarPanelRow::Cancel]
}

/// The rows the panel shows for a bar on `edge`.
pub fn panel_rows(edge: BarEdge) -> (r: Vec<BarPanelRow>)
    ensures
        r@ == panel_rows_spec(edge),
{
    let mut rows = vec![
        BarPanelRow::Enabled,
        BarPanelRow::Style,
        BarPanelRow::Border,
        BarPanelRow::Size,
        BarPanelRow::Color,
        BarPanelRow::Background,
        BarPanelRow::Scope,
    ];
    if edge != BarEdge::Top {
        rows.push(BarPanelRow::OtherBar(BarEdge::Top));
    }
    if edge != BarEdge::Bottom {
        rows.push(BarPanelRow::OtherBar(BarEdge::Bottom));
    }
    if edge != BarEdge::Left {
        rows.push(BarPanelRow::OtherBar(BarEdge::Left));
    }
    if edge != BarEdge::Right {
        rows.push(BarPanelRow::OtherBar(BarEdge::Right));
    }
    rows.push(BarPanelRow::Apply);
    rows.push(BarPanelRow::Cancel);
    assert(rows@ =~= panel_rows_spec(edge));
    rows
}

/// One step through a ring of `n` places, wrapping at both ends.
pub open spec fn step_index(i: int, n: int, forward: bool) -> int {
    if forward {
        if i + 1 >= n { 0 } else { i + 1 }
    } else {
        if i <= 0 { n - 1 } else { i - 1 }
    }
}

/// The looks the style row cycles through, in the order the docs teach them.
pub open spec fn style_choices() -> Seq<Seq<char>> {
    seq!["framed"@, "islands"@, "plain"@, "pills"@]
}

/// The looks the style row cycles through.
pub fn bar_style_choices() -> (r: Vec<&'static str>)
    ensures
        strs(r@) == style_choices(),
{
    let r: Vec<&'static str> = vec!["framed", "islands", "plain", "pills"];
    assert(strs(r@) =~= style_choices());
    r
}

/// Where a style stands in the cycle; an unwritten or unknown style stands
/// where `framed` does.
pub open spec fn style_index(s: Seq<char>) -> int {
    if s == "islands"@ {
        1
    } else if s == "plain"@ {
        2
    } else if s == "pills"@ {
        3
    } else {
        0
    }
}

/// The style one step from `current`.
pub open spec fn cycle_style_spec(current: Seq<char>, forward: bool) -> Seq<char> {
    style_choices()[step_index(style_index(current), 4, forward)]
}

/// The style cycle is total over the closed set; an unwritten style means
/// `framed`, so that is where the cycle stands when it starts.
pub fn cycle_style(current: &str, forward: bool) -> (r: String)
    ensures
        r@ == cycle_style_spec(current@, forward),
{
    let idx: usize = if str_equal(current, "islands") {
        1
    } else if str_equal(current, "plain") {
        2
    } else if str_equal(current, "pills") {
        3
    } else {
        0
    };
    let next: usize = if forward {
        if idx + 1 >= 4 { 0 } else { idx + 1 }
    } else {
        if idx == 0 { 3 } else { idx - 1 }
    };
    if next == 0 {
        owned("framed")
    } else if next == 1 {
        owned("islands")
    } else if next == 2 {
        owned("plain")
    } else {
        owned("pills")
    }
}

/// auto → on → off → auto, and back the other way.
pub open spec fn cycle_border_spec(current: Option<bool>, forward: bool) -> Option<bool> {
    match (current, forward) {
        (None, true) => Some(true),
        (Some(true), true) => Some(false),
        (Some(false), true) => None,
        (None, false) => Some(false),
        (Some(false), false) => Some(true),
        (Some(true), false) => None,
    }
}

/// One step through the three states the border key can hold.
pub fn cycle_border(current: Option<bool>, forward: bool) -> (r: Option<bool>)
    ensures
        r == cycle_border_spec(current, forward),
{
    match (current, forward) {
        (None, true) => Some(true),
        (Some(true), true) => Some(false),
        (Some(false), true) => None,
        (None, false) => Some(false),
        (Some(false), false) => Some(true),
        (Some(true), false) => None,
    }
}

/// One step along the 1-32 range, held at the ends rather than wrapped.
pub open spec fn step_size_spec(current: u16, forward: bool) -> u16 {
    if forward {
        if current >= 32 { 32 } else { (current + 1) as u16 }
    } else {
        if current <= 1 { 1 } else { (current - 1) as u16 }
    }
}

/// One step along the 1-32 range: a size that jumped from 32 to 1 would
/// collapse the bar the person was growing.
pub fn step_size(current: u16, forward: bool) -> (r: u16)
    ensures
        r == step_size_spec(current, forward),
{
    if forward {
        let t = current.saturating_add(1);
        if t > 32 { 32 } else { t }
    } else {
        let t = current.saturating_sub(1);
        if t < 1 { 1 } else { t }
    }
}

/// The person's own literal, offered when neither the list so far nor the
/// token table carries it.
pub open spec fn custom_choice(original: Seq<char>, so_far: Seq<Seq<char>>) -> Seq<Seq<char>> {
    if original.len() > 0 && !so_far.contains(original) && !bar_color_tokens_spec().contains(original) {
        seq![original]
    } else {
        Seq::empty()
    }
}

/// The colour row's choices: the default tone, the person's own literal
/// when the token table does not know it, then every token.
pub open spec fn color_choices_spec(original: Seq<char>) -> Seq<Seq<char>> {
    let base = seq![Seq::<char>::empty()];
    base + custom_choice(original, base) + bar_color_tokens_spec()
}

/// The backdrop row's choices: the theme's, `reset`, the person's own
/// literal when it is neither, then every token.
pub open spec fn background_choices_spec(original: Seq<char>) -> Seq<Seq<char>> {
    let base = seq![Seq::<char>::empty(), "reset"@];
    base + custom_choice(original, base) + bar_color_tokens_spec()
}

fn push_custom_and_tokens(choices: &mut Vec<String>, original: &str)
    ensures
        texts(final(choices)@) == texts(old(choices)@) + custom_choice(original@, texts(old(choices)@))
            + bar_color_tokens_spec(),
{
    let ghost before = texts(choices@);
    let tokens = bar_color_tokens();
    if !original.is_empty() {
        let present = position_of(choices, original);
        proof {
            lemma_index_of(texts(choices@), original@);
        }
        if present.is_none() {
            let known = str_position_of(&tokens, original);
            proof {
                lemma_index_of(strs(tokens@), original@);
            }
            if known.is_none() {
                choices.push(owned(original));
            }
        }
    }
    assert(texts(choices@) =~= before + custom_choice(original@, before));
    let ghost mid = texts(choices@);
    let mut i: usize = 0;
    while i < tokens.len()
        invariant
            i <= tokens@.len(),
            strs(tokens@) == bar_color_tokens_spec(),
            texts(choices@) == mid + bar_color_tokens_spec().subrange(0, i as int),
        decreases tokens.len() - i,
    {
        assert(tokens@[i as int]@ == bar_color_tokens_spec()[i as int]);
        let ghost prev = choices@;
        choices.push(owned(tokens[i]));
        assert(texts(choices@) =~= texts(prev).push(bar_color_tokens_spec()[i as int]));
        assert(mid + bar_color_tokens_spec().subrange(0, i + 1) =~= (mid
            + bar_color_tokens_spec().subrange(0, i as int)).push(bar_color_tokens_spec()[i as int]));
        i = i + 1;
    }
    assert(bar_color_tokens_spec().subrange(0, i as int) =~= bar_color_tokens_spec());
}

/// The colour row's choices for a bar whose file says `original`.
pub fn color_choices(original: &str) -> (r: Vec<String>)
    ensures
        texts(r@) == color_choices_spec(original@),
{
    let mut choices: Vec<String> = vec![String::new()];
    assert(texts(choices@) =~= seq![Seq::<char>::empty()]);
    push_custom_and_tokens(&mut choices, original);
    choices
}

/// The backdrop row's choices for a bar whose file says `original`.
pub fn background_choices(original: &str) -> (r: Vec<String>)
    ensures
        texts(r@) == background_choices_spec(original@),
{
    let mut choices: Vec<String> = vec![String::new(), owned("reset")];
    assert(texts(choices@) =~= seq![Seq::<char>::empty(), "reset"@]);
    push_custom_and_tokens(&mut choices, original);
    choices
}

/// The value one step from `current` in `choices`; a value the list does
/// not carry starts the cycle at its head.
pub open spec fn cycle_choice_spec(current: Seq<char>, choices: Seq<Seq<char>>, forward: bool) -> Seq<char> {
    if choices.len() == 0 {
        current
    } else if index_of(choices, current) < 0 {
        choices[0]
    } else {
        choices[step_index(index_of(choices, current), choices.len() as int, forward)]
    }
}

/// One step through `choices` from `current`, wrapping at both ends.
pub fn cycle_choice(current: &str, choices: &Vec<String>, forward: bool) -> (r: String)
    ensures
        r@ == cycle_choice_spec(current@, texts(choices@), forward),
{
    if choices.len() == 0 {
        return owned(current);
    }
    let len = choices.len();
    proof {
        lemma_index_of(texts(choices@), current@);
    }
    let next: usize = match position_of(choices, current) {
        Some(i) => {
            if forward {
                if i + 1 >= len { 0 } else { i + 1 }
            } else {
                if i == 0 { len - 1 } else { i - 1 }
            }
        },
        None => 0,
    };
    choices[next].clone()
}

/// The word the managed file writes for a border state; TOML cannot write
/// "explicitly none", so `auto` carries it.
pub open spec fn border_word_spec(border: Option<bool>) -> Seq<char> {
    match border {
        None => "auto"@,
        Some(true) => "on"@,
        Some(false) => "off"@,
    }
}

/// The word the managed file writes for a border state.
pub fn border_word(border: Option<bool>) -> (r: &'static str)
    ensures
        r@ == border_word_spec(border),
{
    match border {
        None => "auto",
        Some(true) => "on",
        Some(false) => "off",
    }
}

/// The managed fields whose draft differs from the snapshot, and nothing
/// else; the diff never carries section rebindings.
pub open spec fn diff_spec(original: BarView, draft: BarView) -> OverrideView {
    OverrideView {
        enabled: if original.enabled != draft.enabled { Some(draft.enabled) } else { None },
        size: if original.size != draft.size { Some(draft.size) } else { None },
        style: if original.style != draft.style { Some(draft.style) } else { None },
        border: if original.border != draft.border { Some(border_word_spec(draft.border)) } else { None },
        color: if original.color != draft.color { Some(draft.color) } else { None },
        background: if original.background != draft.background { Some(draft.background) } else { None },
        section_overrides: Seq::empty(),
    }
}

/// The focused edge's changes laid under another edge's own diff: the
/// explicit diff wins field by field, and rebindings never fan out.
pub open spec fn merge_spec(explicit: OverrideView, focused: OverrideView) -> OverrideView {
    OverrideView {
        enabled: if explicit.enabled is Some { explicit.enabled } else { focused.enabled },
        size: if explicit.size is Some { explicit.size } else { focused.size },
        style: if explicit.style is Some { explicit.style } else { focused.style },
        border: if explicit.border is Some { explicit.border } else { focused.border },
        color: if explicit.color is Some { explicit.color } else { focused.color },
        background: if explicit.background is Some { explicit.background } else { focused.background },
        section_overrides: explicit.section_overrides,
    }
}

/// The managed fields whose draft differs from the snapshot.
pub fn diff_edge(original: &ShellBarConfig, draft: &ShellBarConfig) -> (r: ManagedBarOverride)
    ensures
        r@ == diff_spec(original@, draft@),
{
    let r = ManagedBarOverride {
        enabled: if original.enabled != draft.enabled { Some(draft.enabled) } else { None },
        size: if original.size != draft.size { Some(draft.size) } else { None },
        style: if !(original.style == draft.style) { Some(draft.style.clone()) } else { None },
        border: if original.border != draft.border {
            Some(owned(border_word(draft.border)))
        } else {
            None
        },
        color: if !(original.color == draft.color) { Some(draft.color.clone()) } else { None },
        background: if !(original.background == draft.background) {
            Some(draft.background.clone())
        } else {
            None
        },
        section_overrides: Vec::new(),
    };
    assert(r@.section_overrides =~= Seq::empty());
    r
}

/// Lay the focused edge's changes under another edge's own diff.
pub fn merge_fanout(explicit: ManagedBarOverride, focused: &ManagedBarOverride) -> (r: ManagedBarOverride)
    ensures
        r@ == merge_spec(explicit@, focused@),
{
    ManagedBarOverride {
        enabled: if explicit.enabled.is_some() { explicit.enabled } else { focused.enabled },
        size: if explicit.size.is_some() { explicit.size } else { focused.size },
        style: if explicit.style.is_some() { explicit.style } else { clone_opt(&focused.style) },
        border: if explicit.border.is_some() { explicit.border } else { clone_opt(&focused.border) },
        color: if explicit.color.is_some() { explicit.color } else { clone_opt(&focused.color) },
        background: if explicit.background.is_some() {
            explicit.background
        } else {
            clone_opt(&focused.background)
        },
        section_overrides: explicit.section_overrides,
    }
}

/// Which face of the panel is forward: `Apps` is the inventory (what each
/// section shows and which app a press reaches), `Configure` the knobs.
#[derive(Debug, Clone, Copy, PartialEq, Eq, Structural)]
pub enum BarPanelTab {
    Apps,
    Configure,
}

/// A face's label on the tab strip.
pub open spec fn tab_label(tab: BarPanelTab) -> Seq<char> {
    match tab {
        BarPanelTab::Apps => "Apps"@,
        BarPanelTab::Configure => "Configure"@,
    }
}

impl BarPanelTab {
    /// The face's label on the tab strip.
    pub fn label(self) -> (r: &'static str)
        ensures
            r@ == tab_label(self),
    {
        match self {
            BarPanelTab::Apps => "Apps",
            BarPanelTab::Configure => "Configure",
        }
    }
}

/// Each face's key hint: the Apps face has no ←→ adjustment, so its hint
/// does not claim one.
pub open spec fn panel_hint_spec(tab: BarPanelTab) -> Seq<char> {
    match tab {
        BarPanelTab::Configure => "\u{2190}\u{2192} change \u{b7} Enter select \u{b7} Tab apps \u{b7} Esc close"@,
        BarPanelTab::Apps => "Enter run \u{b7} e edit \u{b7} Tab configure \u{b7} Esc close"@,
    }
}

/// Each face's key hint.
pub fn panel_hint(tab: BarPanelTab) -> (r: &'static str)
    ensures
        r@ == panel_hint_spec(tab),
{
    match tab {
        BarPanelTab::Configure => "\u{2190}\u{2192} change \u{b7} Enter select \u{b7} Tab apps \u{b7} Esc close",
        BarPanelTab::Apps => "Enter run \u{b7} e edit \u{b7} Tab configure \u{b7} Esc close",
    }
}

/// The panel: which face is forward, the edge whose knobs the field rows
/// edit, the draft every adjustment edits, the snapshot taken on opening,
/// the scope, the selected row and the Apps face's editor when open.
/// Closing it discards only the draft.
#[derive(Debug)]
pub struct BarConfigPanelState {
    pub tab: BarPanelTab,
    pub edge: BarEdge,
    pub draft: ShellBarsConfig,
    pub original: ShellBarsConfig,
    /// `false`: Apply writes the focused edge; `true`: its changes fan out
    /// to every edge.
    pub scope_all: bool,
    pub selected: usize,
    pub edit: Option<BarAppEditForm>,
}

/// The edge a row edits: its own for an other-bar switch, else the focused one.
pub open spec fn row_target(edge: BarEdge, row: BarPanelRow) -> BarEdge {
    match row {
        BarPanelRow::OtherBar(other) => other,
        _ => edge,
    }
}

/// A bar after one adjustment of `row`; `original` is the same edge's bar
/// in the snapshot, whose literals stay reachable.
pub open spec fn adjusted_bar(bar: BarView, original: BarView, row: BarPanelRow, forward: bool) -> BarView {
    match row {
        BarPanelRow::Enabled => BarView { enabled: !bar.enabled, ..bar },
        BarPanelRow::Style => BarView { style: cycle_style_spec(bar.style, forward), ..bar },
        BarPanelRow::Border => BarView { border: cycle_border_spec(bar.border, forward), ..bar },
        BarPanelRow::Size => BarView { size: step_size_spec(bar.size, forward), ..bar },
        BarPanelRow::Color => BarView {
            color: cycle_choice_spec(bar.color, color_choices_spec(original.color), forward),
            ..bar
        },
        BarPanelRow::Background => BarView {
            background: cycle_choice_spec(
                bar.background,
                background_choices_spec(original.background),
                forward,
            ),
            ..bar
        },
        BarPanelRow::OtherBar(_) => BarView { enabled: !bar.enabled, ..bar },
        _ => bar,
    }
}

/// The draft after one adjustment of `row` on a panel focused on `edge`.
pub open spec fn adjusted_draft(
    draft: BarsView,
    original: BarsView,
    edge: BarEdge,
    row: BarPanelRow,
    forward: bool,
) -> BarsView {
    match row {
        BarPanelRow::Scope | BarPanelRow::Apply | BarPanelRow::Cancel => draft,
        _ => {
            let t = row_target(edge, row);
            with_bar(draft, t, adjusted_bar(bar_on(draft, t), bar_on(original, t), row, forward))
        },
    }
}

/// Whether one adjustment changed anything: a size held at its end does
/// not, and the two verbs never do.
pub open spec fn adjust_changes(draft: BarsView, edge: BarEdge, row: BarPanelRow, forward: bool) -> bool {
    match row {
        BarPanelRow::Size => step_size_spec(bar_on(draft, edge).size, forward) != bar_on(draft, edge).size,
        BarPanelRow::Apply | BarPanelRow::Cancel => false,
        _ => true,
    }
}

/// What one edge's overlay receives: its own diff, with the focused edge's
/// diff laid under it when the scope is every bar.
pub open spec fn edge_override(
    draft: BarsView,
    original: BarsView,
    edge: BarEdge,
    scope_all: bool,
    e: BarEdge,
) -> OverrideView {
    let own = diff_spec(bar_on(original, e), bar_on(draft, e));
    if scope_all && e != edge {
        merge_spec(own, diff_spec(bar_on(original, edge), bar_on(draft, edge)))
    } else {
        own
    }
}

/// The non-empty overrides of `edges`, in order.
pub open spec fn overrides_over(
    draft: BarsView,
    original: BarsView,
    edge: BarEdge,
    scope_all: bool,
    edges: Seq<BarEdge>,
) -> Seq<(BarEdge, OverrideView)>
    decreases edges.len(),
{
    if edges.len() == 0 {
        Seq::empty()
    } else {
        let prev = overrides_over(draft, original, edge, scope_all, edges.drop_last());
        let o = edge_override(draft, original, edge, scope_all, edges.last());
        if override_is_empty(o) {
            prev
        } else {
            prev.push((edges.last(), o))
        }
    }
}

/// Each edge with its override, as plain values.
pub open spec fn override_pairs(v: Seq<(BarEdge, ManagedBarOverride)>) -> Seq<(BarEdge, OverrideView)> {
    v.map_values(|p: (BarEdge, ManagedBarOverride)| (p.0, p.1@))
}

impl BarConfigPanelState {
    /// What Apply persists for this panel, as plain values.
    pub open spec fn overrides_spec(&self) -> Seq<(BarEdge, OverrideView)> {
        overrides_over(self.draft@, self.original@, self.edge, self.scope_all, panel_edges())
    }

    /// The panel opened on `edge` over the loaded bars: the Configure face
    /// forward, the draft and the snapshot both the bars, this bar's scope,
    /// the first row selected and no editor.
    pub fn open(edge: BarEdge, bars: &ShellBarsConfig) -> (r: Self)
        ensures
            r.tab == BarPanelTab::Configure,
            r.edge == edge,
            r.draft@ == bars@,
            r.original@ == bars@,
            !r.scope_all,
            r.selected == 0,
            r.edit is None,
    {
        BarConfigPanelState {
            tab: BarPanelTab::Configure,
            edge,
            draft: bars.clone(),
            original: bars.clone(),
            scope_all: false,
            selected: 0,
            edit: None,
        }
    }

    /// The Configure face's rows.
    pub fn rows(&self) -> (r: Vec<BarPanelRow>)
        ensures
            r@ == panel_rows_spec(self.edge),
    {
        panel_rows(self.edge)
    }

    /// Bring a face forward. The selection resets: an index carried across
    /// faces would land on whatever row happens to share the number.
    pub fn switch_tab(&mut self, tab: BarPanelTab) -> (r: bool)
        ensures
            r == (old(self).tab != tab),
            final(self).tab == tab,
            final(self).selected == (if r { 0 } else { old(self).selected }),
            final(self).edge == old(self).edge,
            final(self).draft == old(self).draft,
            final(self).original == old(self).original,
            final(self).scope_all == old(self).scope_all,
            final(self).edit == old(self).edit,
    {
        if self.tab == tab {
            return false;
        }
        self.tab = tab;
        self.selected = 0;
        true
    }

    /// Adjust one named row. Every row edits exactly what it names: the six
    /// field rows touch only the focused edge's field, an other-bar row only
    /// that edge's switch, Scope flips the fan-out, and the two verbs adjust
    /// nothing. Reports whether anything changed.
    pub fn adjust_row(&mut self, row: BarPanelRow, forward: bool) -> (r: bool)
        ensures
            final(self).draft@ == adjusted_draft(
                old(self).draft@,
                old(self).original@,
                old(self).edge,
                row,
                forward,
            ),
            final(self).scope_all == (if row == BarPanelRow::Scope {
                !old(self).scope_all
            } else {
                old(self).scope_all
            }),
            r == adjust_changes(old(self).draft@, old(self).edge, row, forward),
            final(self).original == old(self).original,
            final(self).tab == old(self).tab,
            final(self).edge == old(self).edge,
            final(self).selected == old(self).selected,
            final(self).edit == old(self).edit,
    {
        match row {
            BarPanelRow::Enabled => {
                let bar = edge_config_mut(&mut self.draft, self.edge);
                bar.enabled = !bar.enabled;
                true
            },
            BarPanelRow::Style => {
                let bar = edge_config_mut(&mut self.draft, self.edge);
                bar.style = cycle_style(bar.style.as_str(), forward);
                true
            },
            BarPanelRow::Border => {
                let bar = edge_config_mut(&mut self.draft, self.edge);
                bar.border = cycle_border(bar.border, forward);
                true
            },
            BarPanelRow::Size => {
                let bar = edge_config_mut(&mut self.draft, self.edge);
                let stepped = step_size(bar.size, forward);
                let changed = stepped != bar.size;
                bar.size = stepped;
                changed
            },
            BarPanelRow::Color => {
                let choices = color_choices(edge_config(&self.original, self.edge).color.as_str());
                let bar = edge_config_mut(&mut self.draft, self.edge);
                bar.color = cycle_choice(bar.color.as_str(), &choices, forward);
                true
            },
            BarPanelRow::Background => {
                let choices = background_choices(
                    edge_config(&self.original, self.edge).background.as_str(),
                );
                let bar = edge_config_mut(&mut self.draft, self.edge);
                bar.background = cycle_choice(bar.background.as_str(), &choices, forward);
                true
            },
            BarPanelRow::Scope => {
                self.scope_all = !self.scope_all;
                true
            },
            BarPanelRow::OtherBar(other) => {
                let bar = edge_config_mut(&mut self.draft, other);
                bar.enabled = !bar.enabled;
                true
            },
            BarPanelRow::Apply | BarPanelRow::Cancel => false,
        }
    }

    /// Adjust the selected row one step; a selection past the rows adjusts
    /// nothing.
    pub fn adjust_selected(&mut self, forward: bool) -> (r: bool)
        ensures
            old(self).selected < panel_rows_spec(old(self).edge).len() ==> {
                let row = panel_rows_spec(old(self).edge)[old(self).selected as int];
                &&& final(self).draft@ == adjusted_draft(
                    old(self).draft@,
                    old(self).original@,
                    old(self).edge,
                    row,
                    forward,
                )
                &&& final(self).scope_all == (if row == BarPanelRow::Scope {
                    !old(self).scope_all
                } else {
                    old(self).scope_all
                })
                &&& r == adjust_changes(old(self).draft@, old(self).edge, row, forward)
            },
            old(self).selected >= panel_rows_spec(old(self).edge).len() ==> {
                &&& !r
                &&& final(self).draft == old(self).draft
                &&& final(self).scope_all == old(self).scope_all
            },
            final(self).original == old(self).original,
            final(self).tab == old(self).tab,
            final(self).edge == old(self).edge,
            final(self).selected == old(self).selected,
            final(self).edit == old(self).edit,
    {
        let rows = self.rows();
        if self.selected < rows.len() {
            let row = rows[self.selected];
            self.adjust_row(row, forward)
        } else {
            false
        }
    }

    fn push_edge_override(
        &self,
        focused: &ManagedBarOverride,
        e: BarEdge,
        out: &mut Vec<(BarEdge, ManagedBarOverride)>,
    )
        requires
            focused@ == diff_spec(bar_on(self.original@, self.edge), bar_on(self.draft@, self.edge)),
        ensures
            override_pairs(final(out)@) == (if override_is_empty(
                edge_override(self.draft@, self.original@, self.edge, self.scope_all, e),
            ) {
                override_pairs(old(out)@)
            } else {
                override_pairs(old(out)@).push(
                    (e, edge_override(self.draft@, self.original@, self.edge, self.scope_all, e)),
                )
            }),
    {
        let mut over = diff_edge(edge_config(&self.original, e), edge_config(&self.draft, e));
        if self.scope_all && e != self.edge {
            over = merge_fanout(over, focused);
        }
        if !over.is_empty() {
            let ghost before = out@;
            let ghost o = over@;
            out.push((e, over));
            assert(override_pairs(out@) =~= override_pairs(before).push((e, o)));
        }
    }

    /// What Apply persists: per edge, in panel order, the managed fields
    /// whose draft differs from the snapshot; with every bar in scope the
    /// focused edge's changes fan out, an edge's own change winning the
    /// field both speak. Edges with nothing to write are left out.
    pub fn managed_overrides(&self) -> (r: Vec<(BarEdge, ManagedBarOverride)>)
        ensures
            override_pairs(r@) == self.overrides_spec(),
    {
        let focused = diff_edge(
            edge_config(&self.original, self.edge),
            edge_config(&self.draft, self.edge),
        );
        let mut out: Vec<(BarEdge, ManagedBarOverride)> = Vec::new();
        let ghost d = self.draft@;
        let ghost o = self.original@;
        assert(override_pairs(out@) =~= Seq::<(BarEdge, OverrideView)>::empty());
        self.push_edge_override(&focused, BarEdge::Top, &mut out);
        assert(seq![BarEdge::Top].drop_last() =~= Seq::<BarEdge>::empty());
        assert(overrides_over(d, o, self.edge, self.scope_all, Seq::<BarEdge>::empty()) == Seq::<
            (BarEdge, OverrideView),
        >::empty());
        assert(override_pairs(out@) == overrides_over(d, o, self.edge, self.scope_all, seq![BarEdge::Top]));
        self.push_edge_override(&focused, BarEdge::Bottom, &mut out);
        assert(seq![BarEdge::Top, BarEdge::Bottom].drop_last() =~= seq![BarEdge::Top]);
        assert(override_pairs(out@) == overrides_over(
            d,
            o,
            self.edge,
            self.scope_all,
            seq![BarEdge::Top, BarEdge::Bottom],
        ));
        self.push_edge_override(&focused, BarEdge::Left, &mut out);
        assert(seq![BarEdge::Top, BarEdge::Bottom, BarEdge::Left].drop_last() =~= seq![
            BarEdge::Top,
            BarEdge::Bottom,
        ]);
        assert(override_pairs(out@) == overrides_over(
            d,
            o,
            self.edge,
            self.scope_all,
            seq![BarEdge::Top, BarEdge::Bottom, BarEdge::Left],
        ));
        self.push_edge_override(&focused, BarEdge::Right, &mut out);
        assert(panel_edges().drop_last() =~= seq![BarEdge::Top, BarEdge::Bottom, BarEdge::Left]);
        out
    }
}

/// The field a row writes, and no other, is set in `o`.
pub open spec fn only_field_of(o: OverrideView, row: BarPanelRow) -> bool {
    &&& (o.enabled is Some <==> row == BarPanelRow::Enabled)
    &&& (o.style is Some <==> row == BarPanelRow::Style)
    &&& (o.border is Some <==> row == BarPanelRow::Border)
    &&& (o.size is Some <==> row == BarPanelRow::Size)
    &&& (o.color is Some <==> row == BarPanelRow::Color)
    &&& (o.background is Some <==> row == BarPanelRow::Background)
    &&& o.section_overrides.len() == 0
}

/// One of the six rows that edit a field of the focused bar.
pub open spec fn is_field_row(row: BarPanelRow) -> bool {
    ||| row == BarPanelRow::Enabled
    ||| row == BarPanelRow::Style
    ||| row == BarPanelRow::Border
    ||| row == BarPanelRow::Size
    ||| row == BarPanelRow::Color
    ||| row == BarPanelRow::Background
}

/// The overrides of the four edges, one edge at a time.
pub open spec fn after_edge(
    prev: Seq<(BarEdge, OverrideView)>,
    draft: BarsView,
    original: BarsView,
    edge: BarEdge,
    scope_all: bool,
    e: BarEdge,
) -> Seq<(BarEdge, OverrideView)> {
    let o = edge_override(draft, original, edge, scope_all, e);
    if override_is_empty(o) { prev } else { prev.push((e, o)) }
}

proof fn lemma_overrides_four(draft: BarsView, original: BarsView, edge: BarEdge, scope_all: bool)
    ensures
        overrides_over(draft, original, edge, scope_all, panel_edges()) == after_edge(
            after_edge(
                after_edge(
                    after_edge(Seq::empty(), draft, original, edge, scope_all, BarEdge::Top),
                    draft,
                    original,
                    edge,
                    scope_all,
                    BarEdge::Bottom,
                ),
                draft,
                original,
                edge,
                scope_all,
                BarEdge::Left,
            ),
            draft,
            original,
            edge,
            scope_all,
            BarEdge::Right,
        ),
{
    let e4 = panel_edges();
    let e3 = seq![BarEdge::Top, BarEdge::Bottom, BarEdge::Left];
    let e2 = seq![BarEdge::Top, BarEdge::Bottom];
    let e1 = seq![BarEdge::Top];
    let e0 = Seq::<BarEdge>::empty();
    assert(e4.drop_last() =~= e3);
    assert(e3.drop_last() =~= e2);
    assert(e2.drop_last() =~= e1);
    assert(e1.drop_last() =~= e0);
    let s0 = overrides_over(draft, original, edge, scope_all, e0);
    assert(s0 == Seq::<(BarEdge, OverrideView)>::empty());
    let s1 = overrides_over(draft, original, edge, scope_all, e1);
    assert(s1 == after_edge(s0, draft, original, edge, scope_all, BarEdge::Top));
    let s2 = overrides_over(draft, original, edge, scope_all, e2);
    assert(s2 == after_edge(s1, draft, original, edge, scope_all, BarEdge::Bottom));
    let s3 = overrides_over(draft, original, edge, scope_all, e3);
    assert(s3 == after_edge(s2, draft, original, edge, scope_all, BarEdge::Left));
}

/// An untouched panel writes nothing: while the draft is the snapshot,
/// whatever the scope, Apply has no override to persist.
pub proof fn law_untouched_panel_writes_nothing(bars: BarsView, edge: BarEdge, scope_all: bool)
    ensures
        overrides_over(bars, bars, edge, scope_all, panel_edges()) == Seq::<(BarEdge, OverrideView)>::empty(),
{
    lemma_overrides_four(bars, bars, edge, scope_all);
    let e = diff_spec(bar_on(bars, edge), bar_on(bars, edge));
    assert(e.section_overrides =~= Seq::<crate::bar_config::ManagedSectionOverride>::empty());
}

/// Where an edge stands in the panel's order.
pub open spec fn edge_rank(e: BarEdge) -> int {
    match e {
        BarEdge::Top => 0,
        BarEdge::Bottom => 1,
        BarEdge::Left => 2,
        BarEdge::Right => 3,
    }
}

/// Edges whose ranks strictly increase along the list.
pub open spec fn edges_ranked(es: Seq<BarEdge>) -> bool {
    forall|i: int, j: int| 0 <= i < j < es.len() ==> edge_rank(#[trigger] es[i]) < edge_rank(#[trigger] es[j])
}

proof fn lemma_overrides_over_shape(
    draft: BarsView,
    original: BarsView,
    edge: BarEdge,
    scope_all: bool,
    edges: Seq<BarEdge>,
)
    requires
        edges_ranked(edges),
    ensures
        ({
            let r = overrides_over(draft, original, edge, scope_all, edges);
            &&& forall|i: int, j: int| 0 <= i < j < r.len() ==> edge_rank((#[trigger] r[i]).0) < edge_rank((#[trigger] r[j]).0)
            &&& forall|k: int| 0 <= k < r.len() ==> edges.contains((#[trigger] r[k]).0)
            &&& forall|k: int| 0 <= k < r.len() ==> (#[trigger] r[k]).1 == edge_override(draft, original, edge, scope_all, r[k].0)
                && !override_is_empty(r[k].1)
            &&& forall|m: int| 0 <= m < edges.len() && !override_is_empty(
                edge_override(draft, original, edge, scope_all, #[trigger] edges[m]),
            ) ==> exists|k: int| 0 <= k < r.len() && (#[trigger] r[k]).0 == edges[m]
        }),
    decreases edges.len(),
{
    if edges.len() > 0 {
        let pre = edges.drop_last();
        assert(edges_ranked(pre)) by {
            assert forall|i: int, j: int| 0 <= i < j < pre.len() implies edge_rank(#[trigger] pre[i]) < edge_rank(#[trigger] pre[j]) by {
                assert(pre[i] == edges[i]);
                assert(pre[j] == edges[j]);
            }
        }
        lemma_overrides_over_shape(draft, original, edge, scope_all, pre);
        let prev = overrides_over(draft, original, edge, scope_all, pre);
        let r = overrides_over(draft, original, edge, scope_all, edges);
        let last = edges.last();
        assert(last == edges[edges.len() - 1]);
        assert forall|k: int| 0 <= k < prev.len() implies edges.contains((#[trigger] prev[k]).0) && edge_rank(prev[k].0) < edge_rank(last) by {
            let w = choose|w: int| 0 <= w < pre.len() && pre[w] == prev[k].0;
            assert(edges[w] == prev[k].0);
        }
        if !override_is_empty(edge_override(draft, original, edge, scope_all, last)) {
            assert(r == prev.push((last, edge_override(draft, original, edge, scope_all, last))));
            assert forall|i: int, j: int| 0 <= i < j < r.len() implies edge_rank((#[trigger] r[i]).0) < edge_rank((#[trigger] r[j]).0) by {
                assert(r[i] == prev[i]);
                if j < prev.len() {
                    assert(r[j] == prev[j]);
                }
            }
            assert forall|k: int| 0 <= k < r.len() implies edges.contains((#[trigger] r[k]).0) by {
                if k < prev.len() {
                    assert(r[k] == prev[k]);
                }
            }
            assert forall|k: int| 0 <= k < r.len() implies (#[trigger] r[k]).1 == edge_override(draft, original, edge, scope_all, r[k].0)
                && !override_is_empty(r[k].1) by {
                if k < prev.len() {
                    assert(r[k] == prev[k]);
                }
            }
            assert forall|m: int| 0 <= m < edges.len() && !override_is_empty(
                edge_override(draft, original, edge, scope_all, #[trigger] edges[m]),
            ) implies exists|k: int| 0 <= k < r.len() && (#[trigger] r[k]).0 == edges[m] by {
                if m < pre.len() {
                    assert(pre[m] == edges[m]);
                    let k = choose|k: int| 0 <= k < prev.len() && (#[trigger] prev[k]).0 == pre[m];
                    assert(r[k] == prev[k]);
                } else {
                    assert(r[prev.len() as int].0 == edges[m]);
                }
            }
        } else {
            assert(r == prev);
            assert forall|m: int| 0 <= m < edges.len() && !override_is_empty(
                edge_override(draft, original, edge, scope_all, #[trigger] edges[m]),
            ) implies exists|k: int| 0 <= k < r.len() && (#[trigger] r[k]).0 == edges[m] by {
                assert(m < pre.len());
                assert(pre[m] == edges[m]);
            }
        }
    }
}

/// What Apply persists: at most one override per edge, in panel order;
/// none empty and none carrying section rebindings; exactly the edges whose
/// override is not empty. Scoped to this bar, an edge's override sets the
/// fields where its draft differs from the snapshot, each to the draft's
/// value (the border as its word); scoped to every bar, another edge also
/// takes the focused edge's changes where it has none of its own. A draft
/// equal to the snapshot persists nothing.
pub proof fn law_managed_overrides_shape(draft: BarsView, original: BarsView, edge: BarEdge, scope_all: bool)
    ensures
        ({
            let r = overrides_over(draft, original, edge, scope_all, panel_edges());
            &&& forall|i: int, j: int| 0 <= i < j < r.len() ==> edge_rank((#[trigger] r[i]).0) < edge_rank((#[trigger] r[j]).0)
            &&& forall|k: int| 0 <= k < r.len() ==> !override_is_empty((#[trigger] r[k]).1)
                && r[k].1.section_overrides.len() == 0
            &&& forall|k: int| 0 <= k < r.len() ==> (#[trigger] r[k]).1 == (if scope_all && r[k].0 != edge {
                merge_spec(
                    diff_spec(bar_on(original, r[k].0), bar_on(draft, r[k].0)),
                    diff_spec(bar_on(original, edge), bar_on(draft, edge)),
                )
            } else {
                diff_spec(bar_on(original, r[k].0), bar_on(draft, r[k].0))
            })
            &&& forall|e: BarEdge| !override_is_empty(#[trigger] edge_override(draft, original, edge, scope_all, e))
                ==> exists|k: int| 0 <= k < r.len() && (#[trigger] r[k]).0 == e
            &&& draft == original ==> r.len() == 0
            &&& forall|i: int, j: int| 0 <= i < j < r.len() ==> edge_name((#[trigger] r[i]).0) != edge_name((#[trigger] r[j]).0)
        }),
{
    let es = panel_edges();
    assert(edges_ranked(es));
    lemma_overrides_over_shape(draft, original, edge, scope_all, es);
    let r = overrides_over(draft, original, edge, scope_all, es);
    assert forall|e: BarEdge| !override_is_empty(#[trigger] edge_override(draft, original, edge, scope_all, e))
        implies exists|k: int| 0 <= k < r.len() && (#[trigger] r[k]).0 == e by {
        let m: int = match e {
            BarEdge::Top => 0,
            BarEdge::Bottom => 1,
            BarEdge::Left => 2,
            BarEdge::Right => 3,
        };
        assert(es[m] == e);
    }
    if draft == original {
        law_untouched_panel_writes_nothing(draft, edge, scope_all);
    }
    assert forall|i: int, j: int| 0 <= i < j < r.len() implies edge_name((#[trigger] r[i]).0) != edge_name((#[trigger] r[j]).0) by {
        law_edge_names_are_distinct(r[i].0, r[j].0);
    }
}

/// A change writes only itself, on its own edge: one adjustment of a field
/// row on a freshly opened panel, scoped to this bar, persists exactly that
/// field of the focused edge when it changed the bar, and nothing when it
/// did not.
pub proof fn law_a_change_writes_only_itself(bars: BarsView, edge: BarEdge, row: BarPanelRow, forward: bool)
    requires
        is_field_row(row),
    ensures
        ({
            let before = bar_on(bars, edge);
            let after = adjusted_bar(before, before, row, forward);
            let draft = adjusted_draft(bars, bars, edge, row, forward);
            let o = diff_spec(before, after);
            &&& (after != before ==> only_field_of(o, row))
            &&& overrides_over(draft, bars, edge, false, panel_edges()) == (if after == before {
                Seq::<(BarEdge, OverrideView)>::empty()
            } else {
                seq![(edge, o)]
            })
        }),
{
    let before = bar_on(bars, edge);
    let after = adjusted_bar(before, before, row, forward);
    let draft = adjusted_draft(bars, bars, edge, row, forward);
    lemma_overrides_four(draft, bars, edge, false);
    assert(draft == with_bar(bars, edge, after));
    let o = diff_spec(before, after);
    assert(o.section_overrides =~= Seq::<crate::bar_config::ManagedSectionOverride>::empty());
    assert forall|e: BarEdge| e != edge implies override_is_empty(edge_override(draft, bars, edge, false, e)) by {
        assert(bar_on(draft, e) == bar_on(bars, e));
        assert(diff_spec(bar_on(bars, e), bar_on(draft, e)).section_overrides =~= Seq::<
            crate::bar_config::ManagedSectionOverride,
        >::empty());
    }
    if after == before {
        assert(override_is_empty(edge_override(draft, bars, edge, false, edge)));
    } else {
        assert(!override_is_empty(o));
    }
    match edge {
        BarEdge::Top => {
            assert(Seq::<(BarEdge, OverrideView)>::empty().push((edge, o)) =~= seq![(edge, o)]);
        },
        BarEdge::Bottom => {
            assert(Seq::<(BarEdge, OverrideView)>::empty().push((edge, o)) =~= seq![(edge, o)]);
        },
        BarEdge::Left => {
            assert(Seq::<(BarEdge, OverrideView)>::empty().push((edge, o)) =~= seq![(edge, o)]);
        },
        BarEdge::Right => {
            assert(Seq::<(BarEdge, OverrideView)>::empty().push((edge, o)) =~= seq![(edge, o)]);
        },
    }
}

/// With every bar in scope, the focused edge's change reaches each other
/// edge in every field that edge did not change itself; and a switch
/// somebody pressed on that edge wins over the fan-out.
pub proof fn law_fanout_and_explicit_switch(draft: BarsView, original: BarsView, edge: BarEdge, e: BarEdge)
    requires
        e != edge,
    ensures
        ({
            let got = edge_override(draft, original, edge, true, e);
            let own = diff_spec(bar_on(original, e), bar_on(draft, e));
            let focused = diff_spec(bar_on(original, edge), bar_on(draft, edge));
            &&& (bar_on(draft, e).enabled != bar_on(original, e).enabled ==> got.enabled == Some(
                bar_on(draft, e).enabled,
            ))
            &&& (own.enabled is None ==> got.enabled == focused.enabled)
            &&& (own.style is None ==> got.style == focused.style)
            &&& (own.border is None ==> got.border == focused.border)
            &&& (own.size is None ==> got.size == focused.size)
            &&& (own.color is None ==> got.color == focused.color)
            &&& (own.background is None ==> got.background == focused.background)
            &&& got.section_overrides.len() == 0
        }),
{
}

/// Every row edits exactly what it names: an adjustment leaves every edge
/// but the row's own untouched, never touches a bar's sections, and the
/// scope and the two verbs leave the draft as it was.
pub proof fn law_adjust_touches_only_what_the_row_names(
    draft: BarsView,
    original: BarsView,
    edge: BarEdge,
    row: BarPanelRow,
    forward: bool,
)
    ensures
        forall|e: BarEdge| e != row_target(edge, row) ==> bar_on(
            #[trigger] adjusted_draft(draft, original, edge, row, forward),
            e,
        ) == bar_on(draft, e),
        bar_on(adjusted_draft(draft, original, edge, row, forward), row_target(edge, row)).sections
            == bar_on(draft, row_target(edge, row)).sections,
        (row == BarPanelRow::Scope || row == BarPanelRow::Apply || row == BarPanelRow::Cancel)
            ==> adjusted_draft(draft, original, edge, row, forward) == draft,
{
}

proof fn lemma_style_literals()
    ensures
        style_choices()[0] != style_choices()[1],
        style_choices()[0] != style_choices()[2],
        style_choices()[0] != style_choices()[3],
        style_choices()[1] != style_choices()[2],
        style_choices()[1] != style_choices()[3],
        style_choices()[2] != style_choices()[3],
{
    reveal_strlit("framed");
    reveal_strlit("islands");
    reveal_strlit("plain");
    reveal_strlit("pills");
    assert("framed"@.len() != "islands"@.len());
    assert("framed"@[0] != "plain"@[0]);
    assert("framed"@[0] != "pills"@[0]);
    assert("islands"@.len() != "plain"@.len());
    assert("islands"@.len() != "pills"@.len());
    assert("plain"@[1] != "pills"@[1]);
}

/// The style cycle is total over the closed set: wherever it starts, a
/// step lands on one of the four looks, a step back undoes a step, and four
/// steps forward close the loop.
pub proof fn law_style_cycle_is_closed(current: Seq<char>, forward: bool)
    ensures
        style_choices().contains(cycle_style_spec(current, forward)),
        style_choices().contains(current) ==> cycle_style_spec(cycle_style_spec(current, forward), !forward)
            == current,
        style_choices().contains(current) ==> cycle_style_spec(
            cycle_style_spec(cycle_style_spec(cycle_style_spec(current, true), true), true),
            true,
        ) == current,
{
    lemma_style_literals();
    let i = step_index(style_index(current), 4, forward);
    assert(style_choices()[i] == cycle_style_spec(current, forward));
    assert(style_index(style_choices()[0]) == 0);
    assert(style_index(style_choices()[1]) == 1);
    assert(style_index(style_choices()[2]) == 2);
    assert(style_index(style_choices()[3]) == 3);
    if style_choices().contains(current) {
        let k = choose|k: int| 0 <= k < 4 && style_choices()[k] == current;
        assert(style_index(current) == k);
    }
}

/// The border cycle is closed: a step back undoes a step, and three steps
/// forward return to where it started.
pub proof fn law_border_cycle_is_closed(current: Option<bool>, forward: bool)
    ensures
        cycle_border_spec(cycle_border_spec(current, forward), !forward) == current,
        cycle_border_spec(cycle_border_spec(cycle_border_spec(current, true), true), true) == current,
{
}

/// The size step is bounded: from inside the 1-32 range it stays inside,
/// held at the ends.
pub proof fn law_size_step_is_bounded(current: u16, forward: bool)
    requires
        1 <= current <= 32,
    ensures
        1 <= step_size_spec(current, forward) <= 32,
        forward && current == 32 ==> step_size_spec(current, forward) == 32,
        !forward && current == 1 ==> step_size_spec(current, forward) == 1,
{
}

/// A choice cycle never leaves its list.
pub proof fn law_choice_cycle_is_closed(current: Seq<char>, choices: Seq<Seq<char>>, forward: bool)
    requires
        choices.len() > 0,
    ensures
        choices.contains(cycle_choice_spec(current, choices, forward)),
{
    lemma_index_of(choices, current);
    let i = index_of(choices, current);
    if i < 0 {
        assert(choices[0] == cycle_choice_spec(current, choices, forward));
    } else {
        let j = step_index(i, choices.len() as int, forward);
        assert(choices[j] == cycle_choice_spec(current, choices, forward));
    }
}

/// The person's own colour stays reachable: a literal the token table does
/// not know is among the colour and backdrop choices, and a known token is
/// offered once, in its place among the tokens.
pub proof fn law_custom_colour_stays_reachable(original: Seq<char>)
    ensures
        original.len() > 0 && !bar_color_tokens_spec().contains(original) ==> color_choices_spec(
            original,
        ).contains(original) && background_choices_spec(original).contains(original),
        bar_color_tokens_spec().contains(original) ==> color_choices_spec(original) == seq![Seq::<char>::empty()]
            + bar_color_tokens_spec(),
        color_choices_spec(original)[0] == Seq::<char>::empty(),
        background_choices_spec(original)[0] == Seq::<char>::empty(),
        background_choices_spec(original)[1] == "reset"@,
{
    let cb = seq![Seq::<char>::empty()];
    let bb = seq![Seq::<char>::empty(), "reset"@];
    if original.len() > 0 && !bar_color_tokens_spec().contains(original) {
        if !cb.contains(original) {
            assert(color_choices_spec(original)[1] == original);
        } else {
            let k = choose|k: int| 0 <= k < cb.len() && cb[k] == original;
            assert(cb[k].len() == 0);
        }
        if !bb.contains(original) {
            assert(background_choices_spec(original)[2] == original);
        } else {
            let k = choose|k: int| 0 <= k < bb.len() && bb[k] == original;
            assert(bb[k] == original);
            assert(background_choices_spec(original)[k] == original);
        }
    }
    if bar_color_tokens_spec().contains(original) {
        assert(custom_choice(original, cb) =~= Seq::<Seq<char>>::empty());
        assert(cb + Seq::<Seq<char>>::empty() =~= cb);
    }
}


impl BarConfigPanelState {
    /// What Apply does: a panel whose draft differs from the snapshot on no
    /// edge has nothing to write and closes like a cancel (`None`); otherwise
    /// each differing edge's override goes to disk under the edge's name, in
    /// edge order.
    pub fn apply_overrides(&self) -> (r: Option<Vec<(&'static str, ManagedBarOverride)>>)
        ensures
            r is None <==> self.overrides_spec().len() == 0,
            r matches Some(v) ==> v@.len() == self.overrides_spec().len() && forall|i: int|
                0 <= i < v@.len() ==> (#[trigger] v@[i]).0@ == edge_name(self.overrides_spec()[i].0) && v@[i].1@
                    == self.overrides_spec()[i].1,
            r matches Some(v) ==> forall|i: int, j: int| 0 <= i < j < v@.len() ==> (#[trigger] v@[i]).0@ != (#[trigger] v@[j]).0@,
    {
        let overrides = self.managed_overrides();
        if overrides.len() == 0 {
            return None;
        }
        let mut named: Vec<(&'static str, ManagedBarOverride)> = Vec::new();
        let mut rest = overrides;
        let ghost all = rest@;
        while rest.len() > 0
            invariant
                override_pairs(all) == self.overrides_spec(),
                named@.len() + rest@.len() == all.len(),
                rest@ == all.subrange(named@.len() as int, all.len() as int),
                forall|i: int| 0 <= i < named@.len() ==> (#[trigger] named@[i]).0@ == edge_name(all[i].0) && named@[i].1@ == all[i].1@,
            decreases rest.len(),
        {
            let ghost before = rest@;
            let (edge, over) = rest.remove(0);
            assert(rest@ =~= all.subrange(named@.len() as int + 1, all.len() as int));
            named.push((bar_edge_name(edge), over));
        }
        proof {
            assert forall|i: int| 0 <= i < named@.len() implies (#[trigger] named@[i]).0@ == edge_name(
                self.overrides_spec()[i].0,
            ) && named@[i].1@ == self.overrides_spec()[i].1 by {
                assert(override_pairs(all)[i] == (all[i].0, all[i].1@));
            }
            law_managed_overrides_shape(self.draft@, self.original@, self.edge, self.scope_all);
            let spec = self.overrides_spec();
            assert forall|i: int, j: int| 0 <= i < j < named@.len() implies (#[trigger] named@[i]).0@ != (#[trigger] named@[j]).0@ by {
                assert(named@[i].0@ == edge_name(spec[i].0));
                assert(named@[j].0@ == edge_name(spec[j].0));
            }
        }
        Some(named)
    }
}

} // verus!
