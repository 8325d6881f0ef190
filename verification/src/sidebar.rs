//! Prepared, bounded navigation model for the native file-manager sidebar.
//!
//! View computation, render and input consume only these pure data types;
//! the directory probes that decide accessibility arrive as plain values.

use vstd::prelude::*;

use crate::rail::{
    compose, firsts, flatten, fresh_keys, item_of, keep_unclaimed, keys, law_rail_composition,
    lemma_compose_flatten, lemma_firsts_are_first, lemma_flatten_append, lemma_flatten_single,
    lemma_item_of_key, lemma_take_unclaimed, lemma_take_unclaimed_firsts, position_of_key, RailItem,
};
use crate::bar_geometry::{covering_index, first_covering};
use crate::geometry::CellRect;

verus! {

/// Hard ceiling for the complete prepared Files-sidebar model.
pub const FILE_MANAGER_SIDEBAR_MAX_ITEMS: usize = 256;

#[derive(Debug, Clone, Copy, PartialEq, Eq, Structural)]
pub enum FileManagerSidebarSectionKind {
    Favorites,
    Pinned,
    Locations,
}

impl FileManagerSidebarSectionKind {
    pub fn label(self) -> (r: &'static str)
        ensures
            r@ == match self {
                FileManagerSidebarSectionKind::Favorites => "FAVORITES"@,
                FileManagerSidebarSectionKind::Pinned => "PINNED"@,
                FileManagerSidebarSectionKind::Locations => "LOCATIONS"@,
            },
    {
        match self {
            FileManagerSidebarSectionKind::Favorites => "FAVORITES",
            FileManagerSidebarSectionKind::Pinned => "PINNED",
            FileManagerSidebarSectionKind::Locations => "LOCATIONS",
        }
    }
}

#[derive(Debug, Clone, Copy, PartialEq, Eq, Structural)]
pub enum FileManagerSidebarIcon {
    Home,
    Desktop,
    Downloads,
    Documents,
    Pictures,
    Videos,
    Music,
    Trash,
    Pin,
    Disk,
}

impl FileManagerSidebarIcon {
    pub fn glyph(self) -> (r: &'static str)
        ensures
            r@ == match self {
                FileManagerSidebarIcon::Home => "󰋜"@,
                FileManagerSidebarIcon::Desktop => "󰇄"@,
                FileManagerSidebarIcon::Downloads => "󰉍"@,
                FileManagerSidebarIcon::Documents => "󰈙"@,
                FileManagerSidebarIcon::Pictures => "󰋩"@,
                FileManagerSidebarIcon::Videos => "󰕧"@,
                FileManagerSidebarIcon::Music => "󰝚"@,
                FileManagerSidebarIcon::Trash => "󰩹"@,
                FileManagerSidebarIcon::Pin => "󰐃"@,
                FileManagerSidebarIcon::Disk => "󰋊"@,
            },
    {
        match self {
            FileManagerSidebarIcon::Home => "󰋜",
            FileManagerSidebarIcon::Desktop => "󰇄",
            FileManagerSidebarIcon::Downloads => "󰉍",
            FileManagerSidebarIcon::Documents => "󰈙",
            FileManagerSidebarIcon::Pictures => "󰋩",
            FileManagerSidebarIcon::Videos => "󰕧",
            FileManagerSidebarIcon::Music => "󰝚",
            FileManagerSidebarIcon::Trash => "󰩹",
            FileManagerSidebarIcon::Pin => "󰐃",
            FileManagerSidebarIcon::Disk => "󰋊",
        }
    }
}

/// One row of the rail. The path is the row's identity.
#[derive(Debug)]
pub struct FileManagerSidebarItem {
    pub label: String,
    pub path: String,
    pub icon: FileManagerSidebarIcon,
    pub accessible: bool,
    pub ejectable: bool,
}

impl Clone for FileManagerSidebarItem {
    fn clone(&self) -> (r: Self)
        ensures
            r == *self,
    {
        FileManagerSidebarItem {
            label: self.label.clone(),
            path: self.path.clone(),
            icon: self.icon,
            accessible: self.accessible,
            ejectable: self.ejectable,
        }
    }
}

impl RailItem for FileManagerSidebarItem {
    open spec fn key(&self) -> Seq<char> {
        self.path@
    }

    fn path_str(&self) -> (r: &str) {
        self.path.as_str()
    }

    open spec fn usable(&self) -> bool {
        self.accessible
    }

    fn is_usable(&self) -> (r: bool) {
        self.accessible
    }

    fn duplicate(&self) -> (r: Self) {
        self.clone()
    }
}

#[derive(Debug)]
pub struct FileManagerSidebarSection {
    pub kind: FileManagerSidebarSectionKind,
    pub items: Vec<FileManagerSidebarItem>,
}

/// A section as plain values: its kind and its items.
pub open spec fn sidebar_section_view(s: FileManagerSidebarSection) -> (FileManagerSidebarSectionKind, Seq<FileManagerSidebarItem>) {
    (s.kind, s.items@)
}

/// The rail a list of sources composes to, in published section order.
pub open spec fn ordered_sidebar(
    favorites: Seq<FileManagerSidebarItem>,
    pinned: Seq<FileManagerSidebarItem>,
    locations: Seq<FileManagerSidebarItem>,
) -> Seq<(FileManagerSidebarSectionKind, Seq<FileManagerSidebarItem>)> {
    compose(
        seq![
            (FileManagerSidebarSectionKind::Favorites, favorites),
            (FileManagerSidebarSectionKind::Pinned, pinned),
            (FileManagerSidebarSectionKind::Locations, locations),
        ],
        Seq::empty(),
        FILE_MANAGER_SIDEBAR_MAX_ITEMS as nat,
    )
}

#[derive(Debug)]
pub struct FileManagerSidebarModel {
    revision: u64,
    pub sections: Vec<FileManagerSidebarSection>,
}

impl Default for FileManagerSidebarModel {
    fn default() -> (r: Self)
        ensures
            r.revision_spec() == 0,
            r.view_sections().len() == 0,
    {
        FileManagerSidebarModel { revision: 0, sections: Vec::new() }
    }
}

pub open spec fn source_view<K, T>(p: (K, Vec<T>)) -> (K, Seq<T>) {
    (p.0, p.1@)
}

impl FileManagerSidebarModel {
    /// The sections as plain values.
    pub closed spec fn view_sections(&self) -> Seq<(FileManagerSidebarSectionKind, Seq<FileManagerSidebarItem>)> {
        self.sections@.map_values(|s: FileManagerSidebarSection| sidebar_section_view(s))
    }

    /// The model's published identity.
    pub closed spec fn revision_spec(&self) -> u64 {
        self.revision
    }

    /// Compose the sidebar in its published section order: favorites, this
    /// application's pins, then locations. A path belongs to the first
    /// section that claims it.
    pub fn from_sources(
        favorites: Vec<FileManagerSidebarItem>,
        pinned: Vec<FileManagerSidebarItem>,
        locations: Vec<FileManagerSidebarItem>,
    ) -> (r: Self)
        ensures
            r.view_sections() == ordered_sidebar(favorites@, pinned@, locations@),
            r.revision_spec() == 1,
    {
        let ghost target = ordered_sidebar(favorites@, pinned@, locations@);
        let mut sources: Vec<(FileManagerSidebarSectionKind, Vec<FileManagerSidebarItem>)> = Vec::new();
        sources.push((FileManagerSidebarSectionKind::Favorites, favorites));
        sources.push((FileManagerSidebarSectionKind::Pinned, pinned));
        sources.push((FileManagerSidebarSectionKind::Locations, locations));
        let mut seen: Vec<String> = Vec::new();
        let mut remaining: usize = FILE_MANAGER_SIDEBAR_MAX_ITEMS;
        let mut sections: Vec<FileManagerSidebarSection> = Vec::new();
        proof {
            let sv = sources@.map_values(|p: (FileManagerSidebarSectionKind, Vec<FileManagerSidebarItem>)| source_view(p));
            assert(sv =~= seq![
                (FileManagerSidebarSectionKind::Favorites, favorites@),
                    (FileManagerSidebarSectionKind::Pinned, pinned@),
                (FileManagerSidebarSectionKind::Locations, locations@),
            ]);
            assert(seen@.map_values(|s: String| s@) =~= Seq::<Seq<char>>::empty());
            assert(sections@.map_values(|s: FileManagerSidebarSection| sidebar_section_view(s)) =~= Seq::empty());
        }
        while sources.len() > 0 && remaining > 0
            invariant
                sections@.map_values(|s: FileManagerSidebarSection| sidebar_section_view(s))
                    + compose(
                        sources@.map_values(|p: (FileManagerSidebarSectionKind, Vec<FileManagerSidebarItem>)| source_view(p)),
                        seen@.map_values(|s: String| s@),
                        remaining as nat,
                    ) == target,
            decreases sources.len(),
        {
            let ghost before = sources@.map_values(|p: (FileManagerSidebarSectionKind, Vec<FileManagerSidebarItem>)| source_view(p));
            let ghost seen_before = seen@.map_values(|s: String| s@);
            let ghost secs_before = sections@.map_values(|s: FileManagerSidebarSection| sidebar_section_view(s));
            let (kind, source) = sources.remove(0);
            proof {
                assert(sources@.map_values(|p: (FileManagerSidebarSectionKind, Vec<FileManagerSidebarItem>)| source_view(p)) =~= before.drop_first());
                lemma_take_unclaimed(source@, seen_before, remaining as nat);
            }
            let items = keep_unclaimed(source, &mut seen, remaining);
            remaining = remaining - items.len();
            if items.len() > 0 {
                sections.push(FileManagerSidebarSection { kind, items });
                proof {
                    assert(sections@.map_values(|s: FileManagerSidebarSection| sidebar_section_view(s))
                        =~= secs_before.push((kind, items@)));
                    assert(secs_before.push((kind, items@)) + compose(before.drop_first(), seen_before + keys(items@), remaining as nat)
                        =~= secs_before + (seq![(kind, items@)] + compose(before.drop_first(), seen_before + keys(items@), remaining as nat)));
                }
            }
        }
        proof {
            assert(compose(
                sources@.map_values(|p: (FileManagerSidebarSectionKind, Vec<FileManagerSidebarItem>)| source_view(p)),
                seen@.map_values(|s: String| s@),
                remaining as nat,
            ) =~= Seq::empty());
            assert(sections@.map_values(|s: FileManagerSidebarSection| sidebar_section_view(s)) =~= target);
        }
        FileManagerSidebarModel { revision: 1, sections }
    }

    /// The section of the given kind, when the rail has one.
    pub fn section(&self, kind: FileManagerSidebarSectionKind) -> (r: Option<&FileManagerSidebarSection>)
        ensures
            r is None ==> forall|i: int| 0 <= i < self.view_sections().len() ==> self.view_sections()[i].0 != kind,
            r is Some ==> exists|i: int| 0 <= i < self.view_sections().len() && self.view_sections()[i] == sidebar_section_view(*r->0)
                && r->0.kind == kind
                && forall|j: int| 0 <= j < i ==> self.view_sections()[j].0 != kind,
    {
        let mut i: usize = 0;
        while i < self.sections.len()
            invariant
                i <= self.sections@.len(),
                forall|j: int| 0 <= j < i ==> self.sections@[j].kind != kind,
            decreases self.sections.len() - i,
        {
            if self.sections[i].kind == kind {
                assert(self.view_sections()[i as int] == sidebar_section_view(self.sections@[i as int]));
                assert forall|j: int| 0 <= j < i implies self.view_sections()[j].0 != kind by {
                    assert(self.view_sections()[j] == sidebar_section_view(self.sections@[j]));
                }
                return Some(&self.sections[i]);
            }
            i = i + 1;
        }
        assert forall|j: int| 0 <= j < self.view_sections().len() implies self.view_sections()[j].0 != kind by {
            assert(self.view_sections()[j] == sidebar_section_view(self.sections@[j]));
        }
        None
    }

    /// How many items the rail holds across all sections.
    pub fn item_count(&self) -> (r: usize)
        requires
            flatten(self.view_sections()).len() <= usize::MAX,
        ensures
            r == flatten(self.view_sections()).len(),
    {
        let ghost v = self.view_sections();
        let mut total: usize = 0;
        let mut i: usize = 0;
        assert(v.skip(0) =~= v);
        assert(v.take(0) =~= Seq::empty());
        while i < self.sections.len()
            invariant
                v == self.view_sections(),
                i <= self.sections@.len(),
                flatten(v).len() <= usize::MAX,
                total == flatten(v.take(i as int)).len(),
            decreases self.sections.len() - i,
        {
            proof {
                lemma_flatten_append(v.take(i as int), seq![v[i as int]]);
                assert(v.take(i as int) + seq![v[i as int]] =~= v.take(i as int + 1));
                lemma_flatten_append(v.take(i as int + 1), v.skip(i as int + 1));
                assert(v.take(i as int + 1) + v.skip(i as int + 1) =~= v);
                lemma_flatten_single(v[i as int]);
            }
            total = total + self.sections[i].items.len();
            i = i + 1;
        }
        assert(v.take(i as int) =~= v);
        total
    }

    /// The item the first section holding `path` holds for it.
    pub fn item_for_path(&self, path: &str) -> (r: Option<&FileManagerSidebarItem>)
        ensures
            match (r, item_of(self.view_sections(), path@)) {
                (Some(a), Some(b)) => *a == b,
                (None, None) => true,
                _ => false,
            },
    {
        let ghost v = self.view_sections();
        let mut i: usize = 0;
        assert(v.skip(0) =~= v);
        assert(v.take(0) =~= Seq::empty());
        while i < self.sections.len()
            invariant
                v == self.view_sections(),
                i <= self.sections@.len(),
                item_of(v, path@) == item_of(v.skip(i as int), path@),
            decreases self.sections.len() - i,
        {
            let found = position_of_key(&self.sections[i].items, path);
            assert(v.skip(i as int)[0] == v[i as int]);
            assert(v.skip(i as int).drop_first() =~= v.skip(i as int + 1));
            match found {
                Some(k) => {
                    return Some(&self.sections[i].items[k]);
                },
                None => {},
            }
            i = i + 1;
        }
        None
    }

    /// The model's published identity; stale asynchronous completions are
    /// recognised by it.
    pub fn revision(&self) -> (r: u64)
        ensures
            r == self.revision_spec(),
    {
        self.revision
    }

    /// Replace the published projection and advance its identity, so a
    /// completion prepared against the old one can be told apart.
    pub fn replace_with(&mut self, replacement: Self)
        ensures
            final(self).view_sections() == replacement.view_sections(),
            final(self).revision_spec() == (if old(self).revision_spec() == u64::MAX { 1 } else { (old(self).revision_spec() + 1) as u64 }),
    {
        let next = if self.revision == u64::MAX { 1 } else { self.revision + 1 };
        *self = FileManagerSidebarModel { revision: next, sections: replacement.sections };
    }
}

/// The sidebar never holds more than its ceiling, never draws a path
/// twice, never draws an empty section, and every row comes from the source
/// of the section it is drawn in.
pub proof fn law_sidebar_rail_composition(
    favorites: Seq<FileManagerSidebarItem>,
    pinned: Seq<FileManagerSidebarItem>,
    locations: Seq<FileManagerSidebarItem>,
)
    ensures
        flatten(ordered_sidebar(favorites, pinned, locations)).len() <= FILE_MANAGER_SIDEBAR_MAX_ITEMS,
        fresh_keys(flatten(ordered_sidebar(favorites, pinned, locations)), Seq::empty()),
        forall|k: int| 0 <= k < ordered_sidebar(favorites, pinned, locations).len()
            ==> (#[trigger] ordered_sidebar(favorites, pinned, locations)[k]).1.len() > 0,
{
    law_rail_composition(
        seq![
            (FileManagerSidebarSectionKind::Favorites, favorites),
            (FileManagerSidebarSectionKind::Pinned, pinned),
            (FileManagerSidebarSectionKind::Locations, locations),
        ],
        Seq::empty(),
        FILE_MANAGER_SIDEBAR_MAX_ITEMS as nat,
    );
}

/// A path belongs to the first sidebar section that claims it: the
/// sidebar's items, read in order, are the items of favorites, pins and
/// locations read in that order whose path no earlier item carried, cut at
/// the ceiling.
pub proof fn law_sidebar_first_claim_wins(
    favorites: Seq<FileManagerSidebarItem>,
    pinned: Seq<FileManagerSidebarItem>,
    locations: Seq<FileManagerSidebarItem>,
)
    ensures
        ({
            let all = favorites + pinned + locations;
            let drawn = flatten(ordered_sidebar(favorites, pinned, locations));
            &&& drawn == (if firsts(all, Seq::empty()).len() <= FILE_MANAGER_SIDEBAR_MAX_ITEMS {
                firsts(all, Seq::empty())
            } else {
                firsts(all, Seq::empty()).take(FILE_MANAGER_SIDEBAR_MAX_ITEMS as int)
            })
            &&& forall|k: int| 0 <= k < drawn.len() ==> exists|i: int| 0 <= i < all.len() && all[i] == #[trigger] drawn[k]
                && forall|j: int| 0 <= j < i ==> crate::paths::path_key(all[j].path@) != crate::paths::path_key(all[i].path@)
        }),
{
    let all = favorites + pinned + locations;
    let src = seq![
        (FileManagerSidebarSectionKind::Favorites, favorites),
        (FileManagerSidebarSectionKind::Pinned, pinned),
        (FileManagerSidebarSectionKind::Locations, locations),
    ];
    let s1 = src.drop_first();
    let s2 = s1.drop_first();
    assert(s2.drop_first() =~= Seq::empty());
    assert(flatten(s2.drop_first()) =~= Seq::<FileManagerSidebarItem>::empty());
    assert(s2[0].1 == locations);
    assert(flatten(s2) =~= locations);
    assert(s1[0].1 == pinned);
    assert(flatten(s1) =~= pinned + locations);
    assert(flatten(src) =~= favorites + (pinned + locations));
    assert(favorites + (pinned + locations) =~= all);
    let n = FILE_MANAGER_SIDEBAR_MAX_ITEMS as nat;
    lemma_compose_flatten(src, Seq::empty(), n);
    lemma_take_unclaimed_firsts(all, Seq::empty(), n);
    lemma_firsts_are_first(all, Seq::empty());
    let f = firsts(all, Seq::empty());
    let drawn = flatten(ordered_sidebar(favorites, pinned, locations));
    assert forall|k: int| 0 <= k < drawn.len() implies exists|i: int| 0 <= i < all.len() && all[i] == #[trigger] drawn[k]
        && forall|j: int| 0 <= j < i ==> crate::paths::path_key(all[j].path@) != crate::paths::path_key(all[i].path@) by {
        assert(drawn[k] == f[k]);
        let i = choose|i: int| 0 <= i < all.len() && all[i] == #[trigger] f[k] && !Seq::<Seq<char>>::empty().contains(
            crate::paths::path_key(all[i].key()))
            && forall|j: int| 0 <= j < i ==> crate::paths::path_key(all[j].key()) != crate::paths::path_key(all[i].key());
        assert(all[i] == drawn[k]);
    }
}

/// A lookup by path finds an item carrying the same path (the same
/// components, however the separators are written).
pub proof fn law_sidebar_lookup_is_exact(m: FileManagerSidebarModel, path: Seq<char>)
    ensures
        item_of(m.view_sections(), path) matches Some(t) ==> crate::paths::path_key(t.path@) == crate::paths::path_key(path),
{
    lemma_item_of_key(m.view_sections(), path);
}


impl FileManagerSidebarModel {
    /// Whether a sidebar click opens its path in Files: only while the
    /// Files tab is showing, only for an accessible item of this model, and
    /// only when the path is a directory now (`is_dir`, asked of the disk).
    /// Any other request is consumed without touching the open projection.
    pub fn navigation_opens(&self, files_tab_active: bool, path: &str, is_dir: bool) -> (r: bool)
        ensures
            r == (files_tab_active && (item_of(self.view_sections(), path@) matches Some(item) && item.accessible) && is_dir),
    {
        if !files_tab_active {
            return false;
        }
        let authorized = match self.item_for_path(path) {
            Some(item) => item.accessible,
            None => false,
        };
        authorized && is_dir
    }
}


/// One item row of the drawn sidebar and the path it carries. Headers and
/// spacing have no area: only items can be clicked.
#[derive(Debug, PartialEq, Eq)]
pub struct FileManagerSidebarRowArea {
    pub rect: CellRect,
    pub path: String,
}

/// The rectangles of the row areas, in drawing order.
pub open spec fn area_rects(v: Seq<FileManagerSidebarRowArea>) -> Seq<CellRect> {
    v.map_values(|a: FileManagerSidebarRowArea| a.rect)
}

/// The path of the first row area under a click, if any.
pub fn sidebar_path_at(areas: &Vec<FileManagerSidebarRowArea>, column: u16, row: u16) -> (r: Option<&str>)
    ensures
        ({
            let i = first_covering(area_rects(areas@), column, row);
            match r {
                Some(p) => 0 <= i < areas@.len() && p@ == areas@[i].path@,
                None => i == -1,
            }
        }),
{
    let mut rects: Vec<CellRect> = Vec::new();
    let mut k: usize = 0;
    while k < areas.len()
        invariant
            k <= areas@.len(),
            rects@ == area_rects(areas@.take(k as int)),
        decreases areas.len() - k,
    {
        rects.push(areas[k].rect);
        k = k + 1;
        assert(rects@ =~= area_rects(areas@.take(k as int)));
    }
    assert(areas@.take(k as int) =~= areas@);
    match covering_index(&rects, column, row) {
        Some(i) => Some(areas[i].path.as_str()),
        None => None,
    }
}

} // verus!
