//! Prepared, bounded navigation model for the Native Files locations rail.
//!
//! View computation, render and input consume only these pure data types;
//! the directory probes that decide accessibility arrive as plain values.

use vstd::prelude::*;

use crate::rail::{
    compose, content_lines, firsts, flatten, fresh_keys, item_of, items_total, keep_unclaimed, keys, kinds,
    law_rail_composition, lemma_compose_all_fit, lemma_compose_flatten, lemma_compose_order,
    lemma_firsts_are_first, lemma_flatten_append, lemma_flatten_len, lemma_flatten_single, lemma_item_of_key,
    lemma_subseq_members, lemma_take_unclaimed, lemma_take_unclaimed_firsts, lemma_usable_keys_append,
    lemma_usable_keys_single, line_of, nonempty_sources, position_of_key, section_lines, subseq, usable_key,
    usable_keys, RailItem,
};

verus! {

/// Hard ceiling for the complete prepared Files-locations model.
pub const FILE_MANAGER_LOCATIONS_MAX_ITEMS: usize = 256;

#[derive(Debug, Clone, Copy, PartialEq, Eq, Structural)]
pub enum FileManagerLocationSectionKind {
    Favorites,
    Bookmarks,
    Pinned,
    Locations,
}

impl FileManagerLocationSectionKind {
    pub fn label(self) -> (r: &'static str)
        ensures
            r@ == match self {
                FileManagerLocationSectionKind::Favorites => "FAVORITES"@,
                FileManagerLocationSectionKind::Bookmarks => "BOOKMARKS"@,
                FileManagerLocationSectionKind::Pinned => "PINNED"@,
                FileManagerLocationSectionKind::Locations => "LOCATIONS"@,
            },
    {
        match self {
            FileManagerLocationSectionKind::Favorites => "FAVORITES",
            FileManagerLocationSectionKind::Bookmarks => "BOOKMARKS",
            FileManagerLocationSectionKind::Pinned => "PINNED",
            FileManagerLocationSectionKind::Locations => "LOCATIONS",
        }
    }
}

#[derive(Debug, Clone, Copy, PartialEq, Eq, Structural)]
pub enum FileManagerLocationIcon {
    Home,
    Desktop,
    Downloads,
    Documents,
    Pictures,
    Videos,
    Music,
    Trash,
    Network,
    Bookmark,
    Pin,
    Disk,
}

impl FileManagerLocationIcon {
    pub fn glyph(self) -> (r: &'static str)
        ensures
            r@ == match self {
                FileManagerLocationIcon::Home => "󰋜"@,
                FileManagerLocationIcon::Desktop => "󰇄"@,
                FileManagerLocationIcon::Downloads => "󰉍"@,
                FileManagerLocationIcon::Documents => "󰈙"@,
                FileManagerLocationIcon::Pictures => "󰋩"@,
                FileManagerLocationIcon::Videos => "󰕧"@,
                FileManagerLocationIcon::Music => "󰝚"@,
                FileManagerLocationIcon::Trash => "󰩹"@,
                FileManagerLocationIcon::Network => "󰛳"@,
                FileManagerLocationIcon::Bookmark => "󰉋"@,
                FileManagerLocationIcon::Pin => "󰐃"@,
                FileManagerLocationIcon::Disk => "󰋊"@,
            },
    {
        match self {
            FileManagerLocationIcon::Home => "󰋜",
            FileManagerLocationIcon::Desktop => "󰇄",
            FileManagerLocationIcon::Downloads => "󰉍",
            FileManagerLocationIcon::Documents => "󰈙",
            FileManagerLocationIcon::Pictures => "󰋩",
            FileManagerLocationIcon::Videos => "󰕧",
            FileManagerLocationIcon::Music => "󰝚",
            FileManagerLocationIcon::Trash => "󰩹",
            FileManagerLocationIcon::Network => "󰛳",
            FileManagerLocationIcon::Bookmark => "󰉋",
            FileManagerLocationIcon::Pin => "󰐃",
            FileManagerLocationIcon::Disk => "󰋊",
        }
    }
}

/// One row of the rail. The path is the row's identity.
#[derive(Debug)]
pub struct FileManagerLocationItem {
    pub label: String,
    pub path: String,
    pub icon: FileManagerLocationIcon,
    pub accessible: bool,
    pub ejectable: bool,
}

impl Clone for FileManagerLocationItem {
    fn clone(&self) -> (r: Self)
        ensures
            r == *self,
    {
        FileManagerLocationItem {
            label: self.label.clone(),
            path: self.path.clone(),
            icon: self.icon,
            accessible: self.accessible,
            ejectable: self.ejectable,
        }
    }
}

impl RailItem for FileManagerLocationItem {
    open spec fn key(&self) -> Seq<char> {
        self.path@
    }

    fn path_str(&self) -> (r: &str) {
        self.path.as_str()
    }

    open spec fn usable(&self) -> bool {
        self.accessible
    }

    fn is_usable(&self) -> (r: bool) {
        self.accessible
    }

    fn duplicate(&self) -> (r: Self) {
        self.clone()
    }
}

#[derive(Debug)]
pub struct FileManagerLocationSection {
    pub kind: FileManagerLocationSectionKind,
    pub items: Vec<FileManagerLocationItem>,
}

/// A section as plain values: its kind and its items.
pub open spec fn location_section_view(s: FileManagerLocationSection) -> (FileManagerLocationSectionKind, Seq<FileManagerLocationItem>) {
    (s.kind, s.items@)
}

/// The sources of a rail, with their kinds, in published section order.
pub open spec fn location_sources(
    favorites: Seq<FileManagerLocationItem>,
    bookmarks: Seq<FileManagerLocationItem>,
    pinned: Seq<FileManagerLocationItem>,
    locations: Seq<FileManagerLocationItem>,
) -> Seq<(FileManagerLocationSectionKind, Seq<FileManagerLocationItem>)> {
    seq![
        (FileManagerLocationSectionKind::Favorites, favorites),
        (FileManagerLocationSectionKind::Bookmarks, bookmarks),
        (FileManagerLocationSectionKind::Pinned, pinned),
        (FileManagerLocationSectionKind::Locations, locations),
    ]
}

/// Where a section kind stands in the published order.
pub open spec fn section_rank(kind: FileManagerLocationSectionKind) -> int {
    match kind {
        FileManagerLocationSectionKind::Favorites => 0,
        FileManagerLocationSectionKind::Bookmarks => 1,
        FileManagerLocationSectionKind::Pinned => 2,
        FileManagerLocationSectionKind::Locations => 3,
    }
}

/// The source a section of the given kind is drawn from.
pub open spec fn source_of_kind(
    kind: FileManagerLocationSectionKind,
    favorites: Seq<FileManagerLocationItem>,
    bookmarks: Seq<FileManagerLocationItem>,
    pinned: Seq<FileManagerLocationItem>,
    locations: Seq<FileManagerLocationItem>,
) -> Seq<FileManagerLocationItem> {
    match kind {
        FileManagerLocationSectionKind::Favorites => favorites,
        FileManagerLocationSectionKind::Bookmarks => bookmarks,
        FileManagerLocationSectionKind::Pinned => pinned,
        FileManagerLocationSectionKind::Locations => locations,
    }
}

/// Kinds whose ranks strictly increase along the list.
pub open spec fn strictly_ranked(ks: Seq<FileManagerLocationSectionKind>) -> bool {
    forall|i: int, j: int| 0 <= i < j < ks.len() ==> section_rank(#[trigger] ks[i]) < section_rank(#[trigger] ks[j])
}

/// The rail a list of sources composes to, in published section order.
pub open spec fn ordered_locations(
    favorites: Seq<FileManagerLocationItem>,
    bookmarks: Seq<FileManagerLocationItem>,
    pinned: Seq<FileManagerLocationItem>,
    locations: Seq<FileManagerLocationItem>,
) -> Seq<(FileManagerLocationSectionKind, Seq<FileManagerLocationItem>)> {
    compose(
        location_sources(favorites, bookmarks, pinned, locations),
        Seq::empty(),
        FILE_MANAGER_LOCATIONS_MAX_ITEMS as nat,
    )
}

#[derive(Debug)]
pub struct FileManagerLocationsModel {
    revision: u64,
    pub sections: Vec<FileManagerLocationSection>,
}

impl Default for FileManagerLocationsModel {
    fn default() -> (r: Self)
        ensures
            r.revision_spec() == 0,
            r.view_sections().len() == 0,
    {
        FileManagerLocationsModel { revision: 0, sections: Vec::new() }
    }
}

pub open spec fn source_view<K, T>(p: (K, Vec<T>)) -> (K, Seq<T>) {
    (p.0, p.1@)
}

impl FileManagerLocationsModel {
    /// The sections as plain values.
    pub closed spec fn view_sections(&self) -> Seq<(FileManagerLocationSectionKind, Seq<FileManagerLocationItem>)> {
        self.sections@.map_values(|s: FileManagerLocationSection| location_section_view(s))
    }

    /// The model's published identity.
    pub closed spec fn revision_spec(&self) -> u64 {
        self.revision
    }

    /// Compose a rail with no host bookmark section.
    pub fn from_sources(
        favorites: Vec<FileManagerLocationItem>,
        pinned: Vec<FileManagerLocationItem>,
        locations: Vec<FileManagerLocationItem>,
    ) -> (r: Self)
        ensures
            r.view_sections() == ordered_locations(favorites@, Seq::empty(), pinned@, locations@),
            r.revision_spec() == 1,
    {
        Self::from_ordered_sources(favorites, Vec::new(), pinned, locations)
    }

    /// Compose the rail in its published section order: the host built-in
    /// block, the host bookmarks, this application's pins, then the mounted
    /// locations. A path belongs to the first section that claims it.
    pub fn from_ordered_sources(
        favorites: Vec<FileManagerLocationItem>,
        bookmarks: Vec<FileManagerLocationItem>,
        pinned: Vec<FileManagerLocationItem>,
        locations: Vec<FileManagerLocationItem>,
    ) -> (r: Self)
        ensures
            r.view_sections() == ordered_locations(favorites@, bookmarks@, pinned@, locations@),
            r.revision_spec() == 1,
    {
        let ghost target = ordered_locations(favorites@, bookmarks@, pinned@, locations@);
        let mut sources: Vec<(FileManagerLocationSectionKind, Vec<FileManagerLocationItem>)> = Vec::new();
        sources.push((FileManagerLocationSectionKind::Favorites, favorites));
        sources.push((FileManagerLocationSectionKind::Bookmarks, bookmarks));
        sources.push((FileManagerLocationSectionKind::Pinned, pinned));
        sources.push((FileManagerLocationSectionKind::Locations, locations));
        let mut seen: Vec<String> = Vec::new();
        let mut remaining: usize = FILE_MANAGER_LOCATIONS_MAX_ITEMS;
        let mut sections: Vec<FileManagerLocationSection> = Vec::new();
        proof {
            let sv = sources@.map_values(|p: (FileManagerLocationSectionKind, Vec<FileManagerLocationItem>)| source_view(p));
            assert(sv =~= seq![
                (FileManagerLocationSectionKind::Favorites, favorites@),
                (FileManagerLocationSectionKind::Bookmarks, bookmarks@),
                (FileManagerLocationSectionKind::Pinned, pinned@),
                (FileManagerLocationSectionKind::Locations, locations@),
            ]);
            assert(seen@.map_values(|s: String| s@) =~= Seq::<Seq<char>>::empty());
            assert(sections@.map_values(|s: FileManagerLocationSection| location_section_view(s)) =~= Seq::empty());
        }
        while sources.len() > 0 && remaining > 0
            invariant
                sections@.map_values(|s: FileManagerLocationSection| location_section_view(s))
                    + compose(
                        sources@.map_values(|p: (FileManagerLocationSectionKind, Vec<FileManagerLocationItem>)| source_view(p)),
                        seen@.map_values(|s: String| s@),
                        remaining as nat,
                    ) == target,
            decreases sources.len(),
        {
            let ghost before = sources@.map_values(|p: (FileManagerLocationSectionKind, Vec<FileManagerLocationItem>)| source_view(p));
            let ghost seen_before = seen@.map_values(|s: String| s@);
            let ghost secs_before = sections@.map_values(|s: FileManagerLocationSection| location_section_view(s));
            let (kind, source) = sources.remove(0);
            proof {
                assert(sources@.map_values(|p: (FileManagerLocationSectionKind, Vec<FileManagerLocationItem>)| source_view(p)) =~= before.drop_first());
                lemma_take_unclaimed(source@, seen_before, remaining as nat);
            }
            let items = keep_unclaimed(source, &mut seen, remaining);
            remaining = remaining - items.len();
            if items.len() > 0 {
                sections.push(FileManagerLocationSection { kind, items });
                proof {
                    assert(sections@.map_values(|s: FileManagerLocationSection| location_section_view(s))
                        =~= secs_before.push((kind, items@)));
                    assert(secs_before.push((kind, items@)) + compose(before.drop_first(), seen_before + keys(items@), remaining as nat)
                        =~= secs_before + (seq![(kind, items@)] + compose(before.drop_first(), seen_before + keys(items@), remaining as nat)));
                }
            }
        }
        proof {
            assert(compose(
                sources@.map_values(|p: (FileManagerLocationSectionKind, Vec<FileManagerLocationItem>)| source_view(p)),
                seen@.map_values(|s: String| s@),
                remaining as nat,
            ) =~= Seq::empty());
            assert(sections@.map_values(|s: FileManagerLocationSection| location_section_view(s)) =~= target);
        }
        FileManagerLocationsModel { revision: 1, sections }
    }

    /// The section of the given kind, when the rail has one.
    pub fn section(&self, kind: FileManagerLocationSectionKind) -> (r: Option<&FileManagerLocationSection>)
        ensures
            r is None ==> forall|i: int| 0 <= i < self.view_sections().len() ==> self.view_sections()[i].0 != kind,
            r is Some ==> exists|i: int| 0 <= i < self.view_sections().len() && self.view_sections()[i] == location_section_view(*r->0)
                && r->0.kind == kind
                && forall|j: int| 0 <= j < i ==> self.view_sections()[j].0 != kind,
    {
        let mut i: usize = 0;
        while i < self.sections.len()
            invariant
                i <= self.sections@.len(),
                forall|j: int| 0 <= j < i ==> self.sections@[j].kind != kind,
            decreases self.sections.len() - i,
        {
            if self.sections[i].kind == kind {
                assert(self.view_sections()[i as int] == location_section_view(self.sections@[i as int]));
                assert forall|j: int| 0 <= j < i implies self.view_sections()[j].0 != kind by {
                    assert(self.view_sections()[j] == location_section_view(self.sections@[j]));
                }
                return Some(&self.sections[i]);
            }
            i = i + 1;
        }
        assert forall|j: int| 0 <= j < self.view_sections().len() implies self.view_sections()[j].0 != kind by {
            assert(self.view_sections()[j] == location_section_view(self.sections@[j]));
        }
        None
    }

    /// How many items the rail holds across all sections.
    pub fn item_count(&self) -> (r: usize)
        requires
            flatten(self.view_sections()).len() <= usize::MAX,
        ensures
            r == flatten(self.view_sections()).len(),
    {
        let ghost v = self.view_sections();
        let mut total: usize = 0;
        let mut i: usize = 0;
        assert(v.skip(0) =~= v);
        assert(v.take(0) =~= Seq::empty());
        while i < self.sections.len()
            invariant
                v == self.view_sections(),
                i <= self.sections@.len(),
                flatten(v).len() <= usize::MAX,
                total == flatten(v.take(i as int)).len(),
            decreases self.sections.len() - i,
        {
            proof {
                lemma_flatten_append(v.take(i as int), seq![v[i as int]]);
                assert(v.take(i as int) + seq![v[i as int]] =~= v.take(i as int + 1));
                lemma_flatten_append(v.take(i as int + 1), v.skip(i as int + 1));
                assert(v.take(i as int + 1) + v.skip(i as int + 1) =~= v);
                lemma_flatten_single(v[i as int]);
            }
            total = total + self.sections[i].items.len();
            i = i + 1;
        }
        assert(v.take(i as int) =~= v);
        total
    }

    /// The item the first section holding `path` holds for it.
    pub fn item_for_path(&self, path: &str) -> (r: Option<&FileManagerLocationItem>)
        ensures
            match (r, item_of(self.view_sections(), path@)) {
                (Some(a), Some(b)) => *a == b,
                (None, None) => true,
                _ => false,
            },
    {
        let ghost v = self.view_sections();
        let mut i: usize = 0;
        assert(v.skip(0) =~= v);
        assert(v.take(0) =~= Seq::empty());
        while i < self.sections.len()
            invariant
                v == self.view_sections(),
                i <= self.sections@.len(),
                item_of(v, path@) == item_of(v.skip(i as int), path@),
            decreases self.sections.len() - i,
        {
            let found = position_of_key(&self.sections[i].items, path);
            assert(v.skip(i as int)[0] == v[i as int]);
            assert(v.skip(i as int).drop_first() =~= v.skip(i as int + 1));
            match found {
                Some(k) => {
                    return Some(&self.sections[i].items[k]);
                },
                None => {},
            }
            i = i + 1;
        }
        None
    }

    /// Whether `path` names an item of the rail whose target can be opened.
    pub fn is_accessible_path(&self, path: &str) -> (r: bool)
        ensures
            r == usable_key(self.view_sections(), path@),
    {
        match self.item_for_path(path) {
            Some(item) => item.accessible,
            None => false,
        }
    }

    /// The paths of the openable items, in rail order.
    pub fn accessible_paths(&self) -> (r: Vec<String>)
        ensures
            r@.map_values(|s: String| s@) == usable_keys(flatten(self.view_sections())),
    {
        let ghost v = self.view_sections();
        let mut out: Vec<String> = Vec::new();
        let mut i: usize = 0;
        assert(v.skip(0) =~= v);
        assert(v.take(0) =~= Seq::empty());
        while i < self.sections.len()
            invariant
                v == self.view_sections(),
                i <= self.sections@.len(),
                out@.map_values(|s: String| s@) == usable_keys(flatten(v.take(i as int))),
            decreases self.sections.len() - i,
        {
            let items = &self.sections[i].items;
            let ghost base = out@.map_values(|s: String| s@);
            let mut k: usize = 0;
            while k < items.len()
                invariant
                    i < self.sections@.len(),
                    *items == self.sections@[i as int].items,
                    k <= items@.len(),
                    out@.map_values(|s: String| s@) == base + usable_keys(items@.take(k as int)),
                decreases items.len() - k,
            {
                proof {
                    lemma_usable_keys_append(items@.take(k as int), seq![items@[k as int]]);
                    assert(items@.take(k as int) + seq![items@[k as int]] =~= items@.take(k as int + 1));
                }
                let ghost o = out@;
                if items[k].accessible {
                    out.push(items[k].path.clone());
                    assert(out@.map_values(|s: String| s@) =~= o.map_values(|s: String| s@).push(items@[k as int].path@));
                    proof { lemma_usable_keys_single(items@[k as int]); }
                } else {
                    proof { lemma_usable_keys_single(items@[k as int]); }
                }
                k = k + 1;
            }
            proof {
                assert(items@.take(k as int) =~= items@);
                lemma_flatten_append(v.take(i as int), seq![v[i as int]]);
                assert(v.take(i as int) + seq![v[i as int]] =~= v.take(i as int + 1));
                lemma_flatten_single(v[i as int]);
                lemma_usable_keys_append(flatten(v.take(i as int)), v[i as int].1);
            }
            i = i + 1;
        }
        assert(v.take(i as int) =~= v);
        out
    }

    /// The rendered height of the rail: headers, items, and one blank line
    /// between consecutive sections.
    pub fn content_line_count(&self) -> (r: usize)
        requires
            section_lines(self.view_sections()) <= usize::MAX,
        ensures
            r == content_lines(self.view_sections()),
    {
        let ghost v = self.view_sections();
        let mut total: usize = 0;
        let mut i: usize = 0;
        assert(v.skip(0) =~= v);
        assert(v.take(0) =~= Seq::empty());
        while i < self.sections.len()
            invariant
                v == self.view_sections(),
                i <= self.sections@.len(),
                section_lines(v) <= usize::MAX,
                total + section_lines(v.skip(i as int)) == section_lines(v),
            decreases self.sections.len() - i,
        {
            assert(v.skip(i as int)[0] == v[i as int]);
            assert(v.skip(i as int).drop_first() =~= v.skip(i as int + 1));
            total = total + (1 + self.sections[i].items.len());
            i = i + 1;
        }
        let separators: usize = if self.sections.len() > 0 { self.sections.len() - 1 } else { 0 };
        total.saturating_add(separators)
    }

    /// The rendered line of `path`'s item, counted the way the render lays
    /// the rail out.
    pub fn line_index_for_path(&self, path: &str) -> (r: Option<usize>)
        requires
            section_lines(self.view_sections()) + self.view_sections().len() <= usize::MAX,
        ensures
            match (r, line_of(self.view_sections(), path@, 0)) {
                (Some(a), Some(b)) => a as int == b,
                (None, None) => true,
                _ => false,
            },
    {
        let ghost v = self.view_sections();
        let mut line: usize = 0;
        let mut i: usize = 0;
        assert(v.skip(0) =~= v);
        assert(v.skip(0) =~= v);
        assert(v.take(0) =~= Seq::empty());
        while i < self.sections.len()
            invariant
                v == self.view_sections(),
                i <= self.sections@.len(),
                section_lines(v) + v.len() <= usize::MAX,
                line + section_lines(v.skip(i as int)) + (v.len() - i) == section_lines(v) + v.len(),
                line_of(v, path@, 0) == line_of(v.skip(i as int), path@, line as int),
            decreases self.sections.len() - i,
        {
            assert(v.skip(i as int)[0] == v[i as int]);
            assert(v.skip(i as int).drop_first() =~= v.skip(i as int + 1));
            let found = position_of_key(&self.sections[i].items, path);
            match found {
                Some(k) => {
                    return Some(line + 1 + k);
                },
                None => {},
            }
            line = line + self.sections[i].items.len() + 2;
            i = i + 1;
        }
        None
    }

    /// The model's published identity; stale asynchronous completions are
    /// recognised by it.
    pub fn revision(&self) -> (r: u64)
        ensures
            r == self.revision_spec(),
    {
        self.revision
    }

    /// Replace the published projection and advance its identity, so a
    /// completion prepared against the old one can be told apart.
    pub fn replace_with(&mut self, replacement: Self)
        ensures
            final(self).view_sections() == replacement.view_sections(),
            final(self).revision_spec() == (if old(self).revision_spec() == u64::MAX { 1 } else { (old(self).revision_spec() + 1) as u64 }),
    {
        let next = if self.revision == u64::MAX { 1 } else { self.revision + 1 };
        *self = FileManagerLocationsModel { revision: next, sections: replacement.sections };
    }
}

/// The locations rail never holds more than its ceiling, never draws a path
/// twice, never draws an empty section, and every row comes from the source
/// of the section it is drawn in.
pub proof fn law_locations_rail_composition(
    favorites: Seq<FileManagerLocationItem>,
    bookmarks: Seq<FileManagerLocationItem>,
    pinned: Seq<FileManagerLocationItem>,
    locations: Seq<FileManagerLocationItem>,
)
    ensures
        flatten(ordered_locations(favorites, bookmarks, pinned, locations)).len() <= FILE_MANAGER_LOCATIONS_MAX_ITEMS,
        fresh_keys(flatten(ordered_locations(favorites, bookmarks, pinned, locations)), Seq::empty()),
        forall|k: int| 0 <= k < ordered_locations(favorites, bookmarks, pinned, locations).len()
            ==> (#[trigger] ordered_locations(favorites, bookmarks, pinned, locations)[k]).1.len() > 0,
{
    law_rail_composition(
        location_sources(favorites, bookmarks, pinned, locations),
        Seq::empty(),
        FILE_MANAGER_LOCATIONS_MAX_ITEMS as nat,
    );
}

/// A lookup by path finds an item carrying the same path (the same
/// components, however the separators are written).
pub proof fn law_location_lookup_is_exact(m: FileManagerLocationsModel, path: Seq<char>)
    ensures
        item_of(m.view_sections(), path) matches Some(t) ==> crate::paths::path_key(t.path@) == crate::paths::path_key(path),
{
    lemma_item_of_key(m.view_sections(), path);
}

/// The sources read one after another.
proof fn lemma_location_sources_flatten(
    favorites: Seq<FileManagerLocationItem>,
    bookmarks: Seq<FileManagerLocationItem>,
    pinned: Seq<FileManagerLocationItem>,
    locations: Seq<FileManagerLocationItem>,
)
    ensures
        flatten(location_sources(favorites, bookmarks, pinned, locations)) == favorites + bookmarks + pinned + locations,
{
    let s = location_sources(favorites, bookmarks, pinned, locations);
    let s1 = s.drop_first();
    let s2 = s1.drop_first();
    let s3 = s2.drop_first();
    assert(s3.drop_first() =~= Seq::empty());
    assert(flatten(s3.drop_first()) =~= Seq::<FileManagerLocationItem>::empty());
    assert(s3[0].1 == locations);
    assert(flatten(s3) =~= locations);
    assert(s2[0].1 == pinned);
    assert(flatten(s2) =~= pinned + locations);
    assert(s1[0].1 == bookmarks);
    assert(flatten(s1) =~= bookmarks + (pinned + locations));
    assert(flatten(s) =~= favorites + (bookmarks + (pinned + locations)));
    assert(favorites + (bookmarks + (pinned + locations)) =~= favorites + bookmarks + pinned + locations);
}

/// A path belongs to the first section that claims it: the rail's items,
/// read in order, are the items of favorites, bookmarks, pins and locations
/// read in that order whose path no earlier item carried, cut at the
/// ceiling. So no path is drawn twice, and a bookmark or a pin whose path is
/// already a favorite is drawn only under Favorites.
pub proof fn law_locations_first_claim_wins(
    favorites: Seq<FileManagerLocationItem>,
    bookmarks: Seq<FileManagerLocationItem>,
    pinned: Seq<FileManagerLocationItem>,
    locations: Seq<FileManagerLocationItem>,
)
    ensures
        ({
            let all = favorites + bookmarks + pinned + locations;
            let drawn = flatten(ordered_locations(favorites, bookmarks, pinned, locations));
            &&& drawn == (if firsts(all, Seq::empty()).len() <= FILE_MANAGER_LOCATIONS_MAX_ITEMS {
                firsts(all, Seq::empty())
            } else {
                firsts(all, Seq::empty()).take(FILE_MANAGER_LOCATIONS_MAX_ITEMS as int)
            })
            &&& fresh_keys(drawn, Seq::empty())
            &&& forall|k: int| 0 <= k < drawn.len() ==> exists|i: int| 0 <= i < all.len() && all[i] == #[trigger] drawn[k]
                && forall|j: int| 0 <= j < i ==> crate::paths::path_key(all[j].path@) != crate::paths::path_key(all[i].path@)
        }),
{
    let all = favorites + bookmarks + pinned + locations;
    let src = location_sources(favorites, bookmarks, pinned, locations);
    let n = FILE_MANAGER_LOCATIONS_MAX_ITEMS as nat;
    lemma_location_sources_flatten(favorites, bookmarks, pinned, locations);
    lemma_compose_flatten(src, Seq::empty(), n);
    lemma_take_unclaimed_firsts(all, Seq::empty(), n);
    lemma_firsts_are_first(all, Seq::empty());
    law_locations_rail_composition(favorites, bookmarks, pinned, locations);
    let f = firsts(all, Seq::empty());
    let drawn = flatten(ordered_locations(favorites, bookmarks, pinned, locations));
    assert forall|k: int| 0 <= k < drawn.len() implies exists|i: int| 0 <= i < all.len() && all[i] == #[trigger] drawn[k]
        && forall|j: int| 0 <= j < i ==> crate::paths::path_key(all[j].path@) != crate::paths::path_key(all[i].path@) by {
        assert(drawn[k] == f[k]);
        let i = choose|i: int| 0 <= i < all.len() && all[i] == #[trigger] f[k] && !Seq::<Seq<char>>::empty().contains(
            crate::paths::path_key(all[i].key()))
            && forall|j: int| 0 <= j < i ==> crate::paths::path_key(all[j].key()) != crate::paths::path_key(all[i].key());
        assert(all[i] == drawn[k]);
    }
}

/// The rail holds as many items as there are distinct paths among its
/// sources, up to the ceiling; that count is the sum of its sections'
/// lengths.
pub proof fn law_locations_item_count(
    favorites: Seq<FileManagerLocationItem>,
    bookmarks: Seq<FileManagerLocationItem>,
    pinned: Seq<FileManagerLocationItem>,
    locations: Seq<FileManagerLocationItem>,
)
    ensures
        ({
            let distinct = firsts(favorites + bookmarks + pinned + locations, Seq::empty()).len();
            let drawn = ordered_locations(favorites, bookmarks, pinned, locations);
            &&& flatten(drawn).len() == (if distinct <= FILE_MANAGER_LOCATIONS_MAX_ITEMS {
                distinct
            } else {
                FILE_MANAGER_LOCATIONS_MAX_ITEMS as nat
            })
            &&& flatten(drawn).len() == items_total(drawn)
        }),
{
    law_locations_first_claim_wins(favorites, bookmarks, pinned, locations);
    lemma_flatten_len(ordered_locations(favorites, bookmarks, pinned, locations));
}

proof fn lemma_subseq_ranked(a: Seq<FileManagerLocationSectionKind>, b: Seq<FileManagerLocationSectionKind>)
    requires
        subseq(a, b),
        strictly_ranked(b),
    ensures
        strictly_ranked(a),
    decreases b.len(),
{
    if a.len() > 0 {
        if a[0] == b[0] && subseq(a.drop_first(), b.drop_first()) {
            assert(strictly_ranked(b.drop_first())) by {
                assert forall|i: int, j: int| 0 <= i < j < b.drop_first().len() implies section_rank(
                    #[trigger] b.drop_first()[i],
                ) < section_rank(#[trigger] b.drop_first()[j]) by {
                    assert(b.drop_first()[i] == b[i + 1]);
                    assert(b.drop_first()[j] == b[j + 1]);
                }
            }
            lemma_subseq_ranked(a.drop_first(), b.drop_first());
            lemma_subseq_members(a.drop_first(), b.drop_first());
            assert forall|i: int, j: int| 0 <= i < j < a.len() implies section_rank(#[trigger] a[i]) < section_rank(
                #[trigger] a[j],
            ) by {
                assert(a[j] == a.drop_first()[j - 1]);
                if i == 0 {
                    assert(b.drop_first().contains(a.drop_first()[j - 1]));
                    let w = choose|w: int| 0 <= w < b.drop_first().len() && b.drop_first()[w] == a.drop_first()[j - 1];
                    assert(b[w + 1] == a[j]);
                    assert(section_rank(b[0]) < section_rank(b[w + 1]));
                } else {
                    assert(a[i] == a.drop_first()[i - 1]);
                }
            }
        } else {
            assert(strictly_ranked(b.drop_first())) by {
                assert forall|i: int, j: int| 0 <= i < j < b.drop_first().len() implies section_rank(
                    #[trigger] b.drop_first()[i],
                ) < section_rank(#[trigger] b.drop_first()[j]) by {
                    assert(b.drop_first()[i] == b[i + 1]);
                    assert(b.drop_first()[j] == b[j + 1]);
                }
            }
            lemma_subseq_ranked(a, b.drop_first());
        }
    }
}

/// The rail's sections come in the order Favorites, Bookmarks, Pinned,
/// Locations, each kind at most once and none empty; each section holds
/// items of its own source only, in that source's order and unchanged; and
/// when every path is distinct and all fit under the ceiling, the rail is
/// one section per non-empty source, holding all of it.
pub proof fn law_locations_section_order(
    favorites: Seq<FileManagerLocationItem>,
    bookmarks: Seq<FileManagerLocationItem>,
    pinned: Seq<FileManagerLocationItem>,
    locations: Seq<FileManagerLocationItem>,
)
    ensures
        ({
            let drawn = ordered_locations(favorites, bookmarks, pinned, locations);
            &&& forall|i: int, j: int| 0 <= i < j < drawn.len() ==> section_rank((#[trigger] drawn[i]).0) < section_rank(
                (#[trigger] drawn[j]).0,
            )
            &&& forall|k: int| 0 <= k < drawn.len() ==> (#[trigger] drawn[k]).1.len() > 0
            &&& forall|k: int| 0 <= k < drawn.len() ==> subseq(
                (#[trigger] drawn[k]).1,
                source_of_kind(drawn[k].0, favorites, bookmarks, pinned, locations),
            )
        }),
        fresh_keys(favorites + bookmarks + pinned + locations, Seq::empty())
            && (favorites + bookmarks + pinned + locations).len() <= FILE_MANAGER_LOCATIONS_MAX_ITEMS
            ==> ordered_locations(favorites, bookmarks, pinned, locations) == nonempty_sources(
            location_sources(favorites, bookmarks, pinned, locations),
        ),
{
    let src = location_sources(favorites, bookmarks, pinned, locations);
    let n = FILE_MANAGER_LOCATIONS_MAX_ITEMS as nat;
    let drawn = ordered_locations(favorites, bookmarks, pinned, locations);
    law_locations_rail_composition(favorites, bookmarks, pinned, locations);
    lemma_compose_order(src, Seq::empty(), n);
    assert(strictly_ranked(kinds(src))) by {
        assert(kinds(src) =~= seq![
            FileManagerLocationSectionKind::Favorites,
            FileManagerLocationSectionKind::Bookmarks,
            FileManagerLocationSectionKind::Pinned,
            FileManagerLocationSectionKind::Locations,
        ]);
    }
    lemma_subseq_ranked(kinds(drawn), kinds(src));
    assert forall|i: int, j: int| 0 <= i < j < drawn.len() implies section_rank((#[trigger] drawn[i]).0) < section_rank(
        (#[trigger] drawn[j]).0,
    ) by {
        assert(kinds(drawn)[i] == drawn[i].0);
        assert(kinds(drawn)[j] == drawn[j].0);
    }
    assert forall|k: int| 0 <= k < drawn.len() implies subseq(
        (#[trigger] drawn[k]).1,
        source_of_kind(drawn[k].0, favorites, bookmarks, pinned, locations),
    ) by {
        let m = choose|m: int| 0 <= m < src.len() && src[m].0 == (#[trigger] drawn[k]).0 && subseq(drawn[k].1, src[m].1);
        assert(src[m].1 == source_of_kind(src[m].0, favorites, bookmarks, pinned, locations));
    }
    if fresh_keys(favorites + bookmarks + pinned + locations, Seq::empty())
        && (favorites + bookmarks + pinned + locations).len() <= FILE_MANAGER_LOCATIONS_MAX_ITEMS {
        lemma_location_sources_flatten(favorites, bookmarks, pinned, locations);
        lemma_compose_all_fit(src, Seq::empty(), n);
    }
}

} // verus!
