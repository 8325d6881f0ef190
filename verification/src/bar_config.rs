//! The bar configuration the panel edits: four edges, each with the knobs a
//! strip answers to and its sections, plus the overlay shapes Apply writes.

use vstd::prelude::*;

use crate::popup_size::PopupSize;
use crate::text::{index_of, lemma_index_of, lemma_index_of_is, opt_chars, str_equal, strs, texts};

verus! {

/// One of the four edges a bar can stand on.
#[derive(Debug, Clone, Copy, PartialEq, Eq, Structural)]
pub enum BarEdge {
    Top,
    Bottom,
    Left,
    Right,
}

pub fn clone_strings(v: &Vec<String>) -> (r: Vec<String>)
    ensures
        r@ == v@,
{
    let mut out: Vec<String> = Vec::new();
    let mut i: usize = 0;
    while i < v.len()
        invariant
            i <= v@.len(),
            out@ == v@.subrange(0, i as int),
        decreases v.len() - i,
    {
        out.push(v[i].clone());
        i = i + 1;
        assert(out@ =~= v@.subrange(0, i as int));
    }
    assert(out@ =~= v@);
    out
}

/// What a press on a section does, as plain values.
pub struct ActionView {
    pub kind: Seq<char>,
    pub argv: Seq<Seq<char>>,
    pub name: Seq<char>,
    pub command: Seq<char>,
    pub width: Option<PopupSize>,
    pub height: Option<PopupSize>,
}

/// What a press on a section does.
#[derive(Debug, PartialEq)]
pub struct ShellBarSectionActionConfig {
    pub kind: String,
    pub argv: Vec<String>,
    pub name: String,
    pub command: String,
    pub width: Option<PopupSize>,
    pub height: Option<PopupSize>,
}

impl View for ShellBarSectionActionConfig {
    type V = ActionView;

    open spec fn view(&self) -> ActionView {
        ActionView {
            kind: self.kind@,
            argv: texts(self.argv@),
            name: self.name@,
            command: self.command@,
            width: self.width,
            height: self.height,
        }
    }
}

impl Clone for ShellBarSectionActionConfig {
    fn clone(&self) -> (r: Self)
        ensures
            r@ == self@,
    {
        let r = ShellBarSectionActionConfig {
            kind: self.kind.clone(),
            argv: clone_strings(&self.argv),
            name: self.name.clone(),
            command: self.command.clone(),
            width: self.width,
            height: self.height,
        };
        assert(texts(r.argv@) =~= texts(self.argv@));
        r
    }
}

/// The unset action: a press that does nothing.
pub open spec fn empty_action() -> ActionView {
    ActionView {
        kind: Seq::empty(),
        argv: Seq::empty(),
        name: Seq::empty(),
        command: Seq::empty(),
        width: None,
        height: None,
    }
}

impl Default for ShellBarSectionActionConfig {
    fn default() -> (r: Self)
        ensures
            r@ == empty_action(),
    {
        let r = ShellBarSectionActionConfig {
            kind: String::new(),
            argv: Vec::new(),
            name: String::new(),
            command: String::new(),
            width: None,
            height: None,
        };
        assert(texts(r.argv@) =~= Seq::<Seq<char>>::empty());
        r
    }
}

/// What a section draws, as plain values.
pub struct WidgetView {
    pub kind: Seq<char>,
    pub text: Seq<char>,
    pub metric: Seq<char>,
    pub glyph: Seq<char>,
    pub art: Seq<char>,
    pub pixels: Seq<Seq<char>>,
    pub format: Seq<char>,
}

/// What a section draws on the strip.
#[derive(Debug, PartialEq)]
pub struct ShellBarWidgetConfig {
    pub kind: String,
    pub text: String,
    pub metric: String,
    pub glyph: String,
    pub art: String,
    pub pixels: Vec<String>,
    pub format: String,
}

impl View for ShellBarWidgetConfig {
    type V = WidgetView;

    open spec fn view(&self) -> WidgetView {
        WidgetView {
            kind: self.kind@,
            text: self.text@,
            metric: self.metric@,
            glyph: self.glyph@,
            art: self.art@,
            pixels: texts(self.pixels@),
            format: self.format@,
        }
    }
}

impl Clone for ShellBarWidgetConfig {
    fn clone(&self) -> (r: Self)
        ensures
            r@ == self@,
    {
        let r = ShellBarWidgetConfig {
            kind: self.kind.clone(),
            text: self.text.clone(),
            metric: self.metric.clone(),
            glyph: self.glyph.clone(),
            art: self.art.clone(),
            pixels: clone_strings(&self.pixels),
            format: self.format.clone(),
        };
        assert(texts(r.pixels@) =~= texts(self.pixels@));
        r
    }
}

impl Default for ShellBarWidgetConfig {
    fn default() -> (r: Self)
        ensures
            r@ == (WidgetView {
                kind: Seq::empty(),
                text: Seq::empty(),
                metric: Seq::empty(),
                glyph: Seq::empty(),
                art: Seq::empty(),
                pixels: Seq::empty(),
                format: Seq::empty(),
            }),
    {
        let r = ShellBarWidgetConfig {
            kind: String::new(),
            text: String::new(),
            metric: String::new(),
            glyph: String::new(),
            art: String::new(),
            pixels: Vec::new(),
            format: String::new(),
        };
        assert(texts(r.pixels@) =~= Seq::<Seq<char>>::empty());
        r
    }
}

/// One section, as plain values.
pub struct SectionView {
    pub kind: Seq<char>,
    pub id: Seq<char>,
    pub group: Seq<char>,
    pub widget: WidgetView,
    pub action: ActionView,
}

/// One section of a strip: its kind, identity, group, widget and action.
#[derive(Debug, PartialEq)]
pub struct ShellBarSectionConfig {
    pub kind: String,
    pub id: String,
    pub group: String,
    pub widget: ShellBarWidgetConfig,
    pub action: ShellBarSectionActionConfig,
}

impl View for ShellBarSectionConfig {
    type V = SectionView;

    open spec fn view(&self) -> SectionView {
        SectionView {
            kind: self.kind@,
            id: self.id@,
            group: self.group@,
            widget: self.widget@,
            action: self.action@,
        }
    }
}

impl Clone for ShellBarSectionConfig {
    fn clone(&self) -> (r: Self)
        ensures
            r@ == self@,
    {
        ShellBarSectionConfig {
            kind: self.kind.clone(),
            id: self.id.clone(),
            group: self.group.clone(),
            widget: self.widget.clone(),
            action: self.action.clone(),
        }
    }
}

impl Default for ShellBarSectionConfig {
    fn default() -> (r: Self)
        ensures
            r@.kind == Seq::<char>::empty(),
            r@.id == Seq::<char>::empty(),
            r@.group == Seq::<char>::empty(),
            r@.widget.kind == Seq::<char>::empty(),
            r@.action == empty_action(),
    {
        ShellBarSectionConfig {
            kind: String::new(),
            id: String::new(),
            group: String::new(),
            widget: ShellBarWidgetConfig::default(),
            action: ShellBarSectionActionConfig::default(),
        }
    }
}

/// The sections, each as plain values.
pub open spec fn section_views(v: Seq<ShellBarSectionConfig>) -> Seq<SectionView> {
    v.map_values(|s: ShellBarSectionConfig| s@)
}

/// One edge's bar, as plain values.
pub struct BarView {
    pub enabled: bool,
    pub style: Seq<char>,
    pub border: Option<bool>,
    pub size: u16,
    pub color: Seq<char>,
    pub background: Seq<char>,
    pub sections: Seq<SectionView>,
}

/// One edge's bar: the six knobs and the sections.
#[derive(Debug, PartialEq)]
pub struct ShellBarConfig {
    pub enabled: bool,
    pub style: String,
    pub border: Option<bool>,
    pub size: u16,
    pub color: String,
    pub background: String,
    pub sections: Vec<ShellBarSectionConfig>,
}

impl View for ShellBarConfig {
    type V = BarView;

    open spec fn view(&self) -> BarView {
        BarView {
            enabled: self.enabled,
            style: self.style@,
            border: self.border,
            size: self.size,
            color: self.color@,
            background: self.background@,
            sections: section_views(self.sections@),
        }
    }
}

pub fn clone_sections(v: &Vec<ShellBarSectionConfig>) -> (r: Vec<ShellBarSectionConfig>)
    ensures
        section_views(r@) == section_views(v@),
{
    let mut out: Vec<ShellBarSectionConfig> = Vec::new();
    let mut i: usize = 0;
    while i < v.len()
        invariant
            i <= v@.len(),
            out@.len() == i,
            forall|j: int| 0 <= j < i ==> (#[trigger] out@[j])@ == v@[j]@,
        decreases v.len() - i,
    {
        out.push(v[i].clone());
        i = i + 1;
    }
    assert(section_views(out@) =~= section_views(v@));
    out
}

impl Clone for ShellBarConfig {
    fn clone(&self) -> (r: Self)
        ensures
            r@ == self@,
    {
        ShellBarConfig {
            enabled: self.enabled,
            style: self.style.clone(),
            border: self.border,
            size: self.size,
            color: self.color.clone(),
            background: self.background.clone(),
            sections: clone_sections(&self.sections),
        }
    }
}

/// A bar nobody configured: off, one cell, every look left to the theme.
pub open spec fn default_bar() -> BarView {
    BarView {
        enabled: false,
        style: Seq::empty(),
        border: None,
        size: 1,
        color: Seq::empty(),
        background: Seq::empty(),
        sections: Seq::empty(),
    }
}

impl Default for ShellBarConfig {
    fn default() -> (r: Self)
        ensures
            r@ == default_bar(),
    {
        let r = ShellBarConfig {
            enabled: false,
            style: String::new(),
            border: None,
            size: 1,
            color: String::new(),
            background: String::new(),
            sections: Vec::new(),
        };
        assert(section_views(r.sections@) =~= Seq::<SectionView>::empty());
        r
    }
}

/// All four bars, as plain values.
pub struct BarsView {
    pub top: BarView,
    pub bottom: BarView,
    pub left: BarView,
    pub right: BarView,
}

/// The bars of all four edges.
#[derive(Debug, PartialEq)]
pub struct ShellBarsConfig {
    pub top: ShellBarConfig,
    pub bottom: ShellBarConfig,
    pub left: ShellBarConfig,
    pub right: ShellBarConfig,
}

impl View for ShellBarsConfig {
    type V = BarsView;

    open spec fn view(&self) -> BarsView {
        BarsView { top: self.top@, bottom: self.bottom@, left: self.left@, right: self.right@ }
    }
}

impl Clone for ShellBarsConfig {
    fn clone(&self) -> (r: Self)
        ensures
            r@ == self@,
    {
        ShellBarsConfig {
            top: self.top.clone(),
            bottom: self.bottom.clone(),
            left: self.left.clone(),
            right: self.right.clone(),
        }
    }
}

impl Default for ShellBarsConfig {
    fn default() -> (r: Self)
        ensures
            r@ == (BarsView { top: default_bar(), bottom: default_bar(), left: default_bar(), right: default_bar() }),
    {
        ShellBarsConfig {
            top: ShellBarConfig::default(),
            bottom: ShellBarConfig::default(),
            left: ShellBarConfig::default(),
            right: ShellBarConfig::default(),
        }
    }
}

/// The bar standing on `edge`, as plain values.
pub open spec fn bar_on(bars: BarsView, edge: BarEdge) -> BarView {
    match edge {
        BarEdge::Top => bars.top,
        BarEdge::Bottom => bars.bottom,
        BarEdge::Left => bars.left,
        BarEdge::Right => bars.right,
    }
}

/// The bars with the one on `edge` replaced, as plain values.
pub open spec fn with_bar(bars: BarsView, edge: BarEdge, bar: BarView) -> BarsView {
    match edge {
        BarEdge::Top => BarsView { top: bar, ..bars },
        BarEdge::Bottom => BarsView { bottom: bar, ..bars },
        BarEdge::Left => BarsView { left: bar, ..bars },
        BarEdge::Right => BarsView { right: bar, ..bars },
    }
}

/// The bar standing on `edge`.
pub open spec fn edge_of(bars: ShellBarsConfig, edge: BarEdge) -> ShellBarConfig {
    match edge {
        BarEdge::Top => bars.top,
        BarEdge::Bottom => bars.bottom,
        BarEdge::Left => bars.left,
        BarEdge::Right => bars.right,
    }
}

/// The bars with the one on `edge` replaced.
pub open spec fn with_edge(bars: ShellBarsConfig, edge: BarEdge, bar: ShellBarConfig) -> ShellBarsConfig {
    match edge {
        BarEdge::Top => ShellBarsConfig { top: bar, ..bars },
        BarEdge::Bottom => ShellBarsConfig { bottom: bar, ..bars },
        BarEdge::Left => ShellBarsConfig { left: bar, ..bars },
        BarEdge::Right => ShellBarsConfig { right: bar, ..bars },
    }
}

/// The bar standing on `edge`.
pub fn edge_config(bars: &ShellBarsConfig, edge: BarEdge) -> (r: &ShellBarConfig)
    ensures
        *r == edge_of(*bars, edge),
        r@ == bar_on(bars@, edge),
{
    match edge {
        BarEdge::Top => &bars.top,
        BarEdge::Bottom => &bars.bottom,
        BarEdge::Left => &bars.left,
        BarEdge::Right => &bars.right,
    }
}

/// The bar standing on `edge`, to edit in place.
pub fn edge_config_mut(bars: &mut ShellBarsConfig, edge: BarEdge) -> (r: &mut ShellBarConfig)
    ensures
        *r == edge_of(*old(bars), edge),
        *final(bars) == with_edge(*old(bars), edge, *final(r)),
        r@ == bar_on(old(bars)@, edge),
        final(bars)@ == with_bar(old(bars)@, edge, final(r)@),
{
    match edge {
        BarEdge::Top => &mut bars.top,
        BarEdge::Bottom => &mut bars.bottom,
        BarEdge::Left => &mut bars.left,
        BarEdge::Right => &mut bars.right,
    }
}

/// One section's action rebinding, keyed by the section's id.
#[derive(Debug)]
pub struct ManagedSectionOverride {
    pub id: String,
    pub action: Option<ShellBarSectionActionConfig>,
}

/// One rebinding, as plain values.
pub struct SectionOverrideView {
    pub id: Seq<char>,
    pub action: Option<ActionView>,
}

impl View for ManagedSectionOverride {
    type V = SectionOverrideView;

    open spec fn view(&self) -> SectionOverrideView {
        SectionOverrideView {
            id: self.id@,
            action: match self.action {
                Some(a) => Some(a@),
                None => None,
            },
        }
    }
}

/// The rebindings, each as plain values.
pub open spec fn override_views(v: Seq<ManagedSectionOverride>) -> Seq<SectionOverrideView> {
    v.map_values(|o: ManagedSectionOverride| o@)
}

/// The rebindings after writing `update`, as plain values: the first with
/// the same id is replaced where it stands, otherwise `update` is appended.
pub open spec fn upserted_view(existing: Seq<SectionOverrideView>, update: SectionOverrideView) -> Seq<SectionOverrideView> {
    let i = index_of(existing.map_values(|o: SectionOverrideView| o.id), update.id);
    if i >= 0 {
        existing.update(i, update)
    } else {
        existing.push(update)
    }
}

/// What the overlay carries for one edge, as plain values.
pub struct OverrideView {
    pub enabled: Option<bool>,
    pub size: Option<u16>,
    pub style: Option<Seq<char>>,
    pub border: Option<Seq<char>>,
    pub color: Option<Seq<char>>,
    pub background: Option<Seq<char>>,
    pub section_overrides: Seq<ManagedSectionOverride>,
}

/// An override that carries nothing at all.
pub open spec fn override_is_empty(o: OverrideView) -> bool {
    &&& o.enabled is None
    &&& o.size is None
    &&& o.style is None
    &&& o.border is None
    &&& o.color is None
    &&& o.background is None
    &&& o.section_overrides.len() == 0
}

/// What the overlay may carry for one edge: each managed field only when it
/// was changed, and any section rebindings.
#[derive(Debug)]
pub struct ManagedBarOverride {
    pub enabled: Option<bool>,
    pub size: Option<u16>,
    pub style: Option<String>,
    pub border: Option<String>,
    pub color: Option<String>,
    pub background: Option<String>,
    pub section_overrides: Vec<ManagedSectionOverride>,
}

impl View for ManagedBarOverride {
    type V = OverrideView;

    open spec fn view(&self) -> OverrideView {
        OverrideView {
            enabled: self.enabled,
            size: self.size,
            style: opt_chars(self.style),
            border: opt_chars(self.border),
            color: opt_chars(self.color),
            background: opt_chars(self.background),
            section_overrides: self.section_overrides@,
        }
    }
}

impl ManagedBarOverride {
    /// Whether the override carries nothing at all.
    pub fn is_empty(&self) -> (r: bool)
        ensures
            r == override_is_empty(self@),
    {
        self.enabled.is_none() && self.size.is_none() && self.style.is_none() && self.border.is_none()
            && self.color.is_none() && self.background.is_none() && self.section_overrides.len() == 0
    }
}

impl Default for ManagedBarOverride {
    fn default() -> (r: Self)
        ensures
            override_is_empty(r@),
    {
        ManagedBarOverride {
            enabled: None,
            size: None,
            style: None,
            border: None,
            color: None,
            background: None,
            section_overrides: Vec::new(),
        }
    }
}

/// The ids of the overrides, in order.
pub open spec fn override_ids(v: Seq<ManagedSectionOverride>) -> Seq<Seq<char>> {
    v.map_values(|o: ManagedSectionOverride| o.id@)
}

/// The overlay's section overrides after writing `update`: the first
/// override with the same id is replaced where it stands, otherwise `update`
/// is appended; every other override is kept in place.
pub open spec fn upserted(existing: Seq<ManagedSectionOverride>, update: ManagedSectionOverride) -> Seq<ManagedSectionOverride> {
    let i = index_of(override_ids(existing), update.id@);
    if i >= 0 {
        existing.update(i, update)
    } else {
        existing.push(update)
    }
}

/// Write one section override over the existing list.
pub fn upsert_section_override(existing: Vec<ManagedSectionOverride>, update: ManagedSectionOverride) -> (r: Vec<ManagedSectionOverride>)
    ensures
        r@ == upserted(existing@, update),
        override_views(r@) == upserted_view(override_views(existing@), update@),
{
    assert(override_ids(existing@) =~= override_views(existing@).map_values(|o: SectionOverrideView| o.id));
    let ghost uv = update@;
    let mut list = existing;
    let mut i: usize = 0;
    while i < list.len()
        invariant
            list@ == existing@,
            i <= list@.len(),
            forall|j: int| 0 <= j < i ==> list@[j].id@ != update.id@,
            uv == update@,
            override_ids(existing@) == override_views(existing@).map_values(|o: SectionOverrideView| o.id),
        decreases list.len() - i,
    {
        if str_equal(list[i].id.as_str(), update.id.as_str()) {
            proof {
                lemma_index_of_is(override_ids(existing@), update.id@, i as int);
            }
            list.set(i, update);
            assert(override_views(list@) =~= override_views(existing@).update(i as int, uv));
            return list;
        }
        i = i + 1;
    }
    proof {
        lemma_index_of(override_ids(existing@), update.id@);
        if override_ids(existing@).contains(update.id@) {
            let w = choose|w: int| 0 <= w < existing@.len() && override_ids(existing@)[w] == update.id@;
            assert(existing@[w].id@ == update.id@);
        }
    }
    list.push(update);
    assert(override_views(list@) =~= override_views(existing@).push(uv));
    list
}

/// Writing one override never eats a neighbour: every existing override
/// under another id survives, the written one is present, and the list grows
/// by at most one.
pub proof fn law_upsert_keeps_neighbours(existing: Seq<ManagedSectionOverride>, update: ManagedSectionOverride)
    ensures
        upserted(existing, update).contains(update),
        forall|j: int| 0 <= j < existing.len() && existing[j].id@ != update.id@ ==> upserted(existing, update).contains(
            #[trigger] existing[j],
        ),
        existing.len() <= upserted(existing, update).len() <= existing.len() + 1,
{
    lemma_index_of(override_ids(existing), update.id@);
    let i = index_of(override_ids(existing), update.id@);
    let r = upserted(existing, update);
    if i >= 0 {
        assert(r[i] == update);
        assert forall|j: int| 0 <= j < existing.len() && existing[j].id@ != update.id@ implies r.contains(
            #[trigger] existing[j],
        ) by {
            assert(override_ids(existing)[i] == update.id@);
            assert(j != i);
            assert(r[j] == existing[j]);
        }
    } else {
        assert(r[existing.len() as int] == update);
        assert forall|j: int| 0 <= j < existing.len() && existing[j].id@ != update.id@ implies r.contains(
            #[trigger] existing[j],
        ) by {
            assert(r[j] == existing[j]);
        }
    }
}

/// The colour tokens this build resolves, in the order the panel offers them.
pub open spec fn bar_color_tokens_spec() -> Seq<Seq<char>> {
    seq![
        "accent"@, "text"@, "subtext"@, "overlay"@, "surface"@, "base"@, "mantle"@, "crust"@,
        "rosewater"@, "flamingo"@, "pink"@, "mauve"@, "red"@, "maroon"@, "peach"@, "yellow"@,
        "green"@, "teal"@, "sky"@, "sapphire"@, "blue"@, "lavender"@,
    ]
}

/// The colour tokens this build resolves, in the order the panel offers them.
pub fn bar_color_tokens() -> (r: Vec<&'static str>)
    ensures
        strs(r@) == bar_color_tokens_spec(),
{
    let r: Vec<&'static str> = vec![
        "accent", "text", "subtext", "overlay", "surface", "base", "mantle", "crust", "rosewater",
        "flamingo", "pink", "mauve", "red", "maroon", "peach", "yellow", "green", "teal", "sky",
        "sapphire", "blue", "lavender",
    ];
    assert(strs(r@) =~= bar_color_tokens_spec());
    r
}

} // verus!
