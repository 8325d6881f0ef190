//! Building the locations rail and the Files sidebar from what the host
//! offers: the home directory, the well-known user directories, mounted
//! volumes, the network mount root, desktop bookmarks and the pins. Every
//! directory probe arrives as a plain value, so the projection is
//! deterministic; the probes are made by the caller on the paths these
//! builders name.

use vstd::prelude::*;

use crate::locations_model::{
    ordered_locations, FileManagerLocationIcon, FileManagerLocationItem, FileManagerLocationsModel,
};
use crate::paths::{derived_label, derived_label_of, join_path, path_join, path_root, root_of};
use crate::sidebar::{ordered_sidebar, FileManagerSidebarIcon, FileManagerSidebarItem, FileManagerSidebarModel};
use crate::text::owned;

verus! {

/// A well-known user directory's kind.
#[derive(Debug, Clone, Copy, PartialEq, Eq, Structural)]
pub enum UserDirectoryKind {
    Desktop,
    Downloads,
    Documents,
    Pictures,
    Videos,
    Music,
}

/// A path and whether it is an accessible directory.
#[derive(Debug)]
pub struct ProbedPath {
    pub path: String,
    pub accessible: bool,
}

/// A well-known user directory, as the host locates it.
#[derive(Debug)]
pub struct UserDirectory {
    pub kind: UserDirectoryKind,
    pub path: String,
    pub accessible: bool,
}

/// A desktop bookmark: its target and, when the bookmark names it, a label.
#[derive(Debug)]
pub struct DesktopBookmark {
    pub label: Option<String>,
    pub path: String,
    pub accessible: bool,
}

/// Everything the host offers the rail, with each probe's answer.
#[derive(Debug)]
pub struct LocationHostSources {
    pub home: ProbedPath,
    pub user_dirs: Vec<UserDirectory>,
    pub volumes: Vec<ProbedPath>,
    pub network_root: Option<ProbedPath>,
    pub bookmarks: Vec<DesktopBookmark>,
    pub pinned: Vec<ProbedPath>,
    /// The trash's `files/` directory (see `trash_candidates`) is accessible.
    pub trash_files_accessible: bool,
    /// The trash container itself is accessible.
    pub trash_container_accessible: bool,
    /// The filesystem root under home (see `filesystem_root`) is accessible.
    pub root_accessible: bool,
}

/// A rail row, as plain values.
pub struct ItemView {
    pub label: Seq<char>,
    pub path: Seq<char>,
    pub icon: FileManagerLocationIcon,
    pub accessible: bool,
    pub ejectable: bool,
}

pub open spec fn item_view(i: FileManagerLocationItem) -> ItemView {
    ItemView { label: i.label@, path: i.path@, icon: i.icon, accessible: i.accessible, ejectable: i.ejectable }
}

pub open spec fn item_views(s: Seq<FileManagerLocationItem>) -> Seq<ItemView> {
    s.map_values(|i: FileManagerLocationItem| item_view(i))
}

pub open spec fn row(label: Seq<char>, path: Seq<char>, icon: FileManagerLocationIcon, accessible: bool) -> ItemView {
    ItemView { label, path, icon, accessible, ejectable: false }
}

fn make_item(label: String, path: String, icon: FileManagerLocationIcon, accessible: bool) -> (r: FileManagerLocationItem)
    ensures
        item_view(r) == row(label@, path@, icon, accessible),
{
    FileManagerLocationItem { label, path, icon, accessible, ejectable: false }
}

pub open spec fn user_dir_icon(kind: UserDirectoryKind) -> FileManagerLocationIcon {
    match kind {
        UserDirectoryKind::Desktop => FileManagerLocationIcon::Desktop,
        UserDirectoryKind::Downloads => FileManagerLocationIcon::Downloads,
        UserDirectoryKind::Documents => FileManagerLocationIcon::Documents,
        UserDirectoryKind::Pictures => FileManagerLocationIcon::Pictures,
        UserDirectoryKind::Videos => FileManagerLocationIcon::Videos,
        UserDirectoryKind::Music => FileManagerLocationIcon::Music,
    }
}

fn icon_for(kind: UserDirectoryKind) -> (r: FileManagerLocationIcon)
    ensures
        r == user_dir_icon(kind),
{
    match kind {
        UserDirectoryKind::Desktop => FileManagerLocationIcon::Desktop,
        UserDirectoryKind::Downloads => FileManagerLocationIcon::Downloads,
        UserDirectoryKind::Documents => FileManagerLocationIcon::Documents,
        UserDirectoryKind::Pictures => FileManagerLocationIcon::Pictures,
        UserDirectoryKind::Videos => FileManagerLocationIcon::Videos,
        UserDirectoryKind::Music => FileManagerLocationIcon::Music,
    }
}

/// The user directories that are there, each under its own name and icon.
pub open spec fn user_dir_rows(dirs: Seq<UserDirectory>) -> Seq<ItemView>
    decreases dirs.len(),
{
    if dirs.len() == 0 {
        Seq::empty()
    } else {
        let prev = user_dir_rows(dirs.drop_last());
        let d = dirs.last();
        if d.accessible {
            prev.push(row(derived_label(d.path@), d.path@, user_dir_icon(d.kind), true))
        } else {
            prev
        }
    }
}

/// The trash's container under home, and its `files/` directory.
pub open spec fn trash_container(home: Seq<char>) -> Seq<char> {
    path_join(home, ".local/share/Trash"@)
}

pub open spec fn trash_files(home: Seq<char>) -> Seq<char> {
    path_join(trash_container(home), "files"@)
}

/// The two places the trash may be opened at, preferred first: the
/// `files/` directory desktop file managers open, then the container a
/// fresh home may hold alone.
pub fn trash_candidates(home: &str) -> (r: (String, String))
    ensures
        r.0@ == trash_files(home@),
        r.1@ == trash_container(home@),
{
    let container = join_path(home, ".local/share/Trash");
    let files = join_path(container.as_str(), "files");
    (files, container)
}

/// The filesystem root home hangs from, when home is absolute.
pub open spec fn root_spec(home: Seq<char>) -> Option<Seq<char>> {
    if path_root(home).len() > 0 { Some(path_root(home)) } else { None }
}

/// The filesystem root home hangs from; a relative home has none.
pub fn filesystem_root(home: &str) -> (r: Option<String>)
    ensures
        match r {
            Some(s) => root_spec(home@) == Some(s@),
            None => root_spec(home@) is None,
        },
{
    let root = root_of(home);
    if root.as_str().is_empty() { None } else { Some(root) }
}

/// The built-in block: Home, the user directories that are there, the
/// network root when it is there, and the trash when either of its places
/// is there.
pub open spec fn host_favorites(s: LocationHostSources) -> Seq<ItemView> {
    let home = seq![row("Home"@, s.home.path@, FileManagerLocationIcon::Home, s.home.accessible)];
    let network = match s.network_root {
        Some(n) => if n.accessible { seq![row("Network"@, n.path@, FileManagerLocationIcon::Network, true)] } else { Seq::empty() },
        None => Seq::empty(),
    };
    let trash = if s.trash_files_accessible {
        seq![row("Trash"@, trash_files(s.home.path@), FileManagerLocationIcon::Trash, true)]
    } else if s.trash_container_accessible {
        seq![row("Trash"@, trash_container(s.home.path@), FileManagerLocationIcon::Trash, true)]
    } else {
        Seq::empty()
    };
    home + user_dir_rows(s.user_dirs@) + network + trash
}

/// A bookmark stays visible even when its target is gone, marked
/// inaccessible; its own label wins over the path's name.
pub open spec fn bookmark_rows(b: Seq<DesktopBookmark>) -> Seq<ItemView> {
    b.map_values(|x: DesktopBookmark| row(
        match x.label {
            Some(l) => l@,
            None => derived_label(x.path@),
        },
        x.path@,
        FileManagerLocationIcon::Bookmark,
        x.accessible,
    ))
}

/// The pins, each under its path's own name.
pub open spec fn pinned_rows(p: Seq<ProbedPath>) -> Seq<ItemView> {
    p.map_values(|x: ProbedPath| row(derived_label(x.path@), x.path@, FileManagerLocationIcon::Pin, x.accessible))
}

/// The mounted volumes, then the filesystem root.
pub open spec fn location_rows(s: LocationHostSources) -> Seq<ItemView> {
    let volumes = s.volumes@.map_values(|x: ProbedPath| row(derived_label(x.path@), x.path@, FileManagerLocationIcon::Disk, x.accessible));
    let root = match root_spec(s.home.path@) {
        Some(r) => seq![row("Root"@, r, FileManagerLocationIcon::Disk, s.root_accessible)],
        None => Seq::empty(),
    };
    volumes + root
}

fn probed_rows(
    out: &mut Vec<FileManagerLocationItem>,
    list: &Vec<ProbedPath>,
    icon: FileManagerLocationIcon,
)
    ensures
        item_views(final(out)@) == item_views(old(out)@) + list@.map_values(
            |x: ProbedPath| row(derived_label(x.path@), x.path@, icon, x.accessible),
        ),
{
    let ghost start = item_views(out@);
    let mut i: usize = 0;
    while i < list.len()
        invariant
            i <= list@.len(),
            item_views(out@) == start + list@.subrange(0, i as int).map_values(
                |x: ProbedPath| row(derived_label(x.path@), x.path@, icon, x.accessible),
            ),
        decreases list.len() - i,
    {
        let p = &list[i];
        let item = make_item(derived_label_of(&p.path), p.path.clone(), icon, p.accessible);
        let ghost before = out@;
        let ghost iv = item_view(item);
        out.push(item);
        assert(item_views(out@) =~= item_views(before).push(iv));
        assert(list@.subrange(0, i + 1).map_values(|x: ProbedPath| row(derived_label(x.path@), x.path@, icon, x.accessible))
            =~= list@.subrange(0, i as int).map_values(
            |x: ProbedPath| row(derived_label(x.path@), x.path@, icon, x.accessible),
        ).push(iv));
        i = i + 1;
    }
    assert(list@.subrange(0, i as int) =~= list@);
}

impl FileManagerLocationsModel {
    /// The rail as the host offers it: the built-in block, the bookmarks,
    /// the pins and the mounted locations, composed in that order with a
    /// path belonging to the first section that claims it.
    pub fn from_host_sources(s: &LocationHostSources) -> (r: Self)
        ensures
            exists|f: Seq<FileManagerLocationItem>, b: Seq<FileManagerLocationItem>, p: Seq<FileManagerLocationItem>, l: Seq<FileManagerLocationItem>|
                item_views(f) == host_favorites(*s) && item_views(b) == bookmark_rows(s.bookmarks@)
                    && item_views(p) == pinned_rows(s.pinned@) && item_views(l) == location_rows(*s)
                    && r.view_sections() == #[trigger] ordered_locations(f, b, p, l),
            r.revision_spec() == 1,
    {
        let mut favorites: Vec<FileManagerLocationItem> = Vec::new();
        favorites.push(make_item(owned("Home"), s.home.path.clone(), FileManagerLocationIcon::Home, s.home.accessible));
        let ghost home_rows = item_views(favorites@);
        assert(home_rows =~= seq![row("Home"@, s.home.path@, FileManagerLocationIcon::Home, s.home.accessible)]);
        let mut i: usize = 0;
        while i < s.user_dirs.len()
            invariant
                i <= s.user_dirs@.len(),
                item_views(favorites@) == home_rows + user_dir_rows(s.user_dirs@.subrange(0, i as int)),
            decreases s.user_dirs.len() - i,
        {
            let d = &s.user_dirs[i];
            assert(s.user_dirs@.subrange(0, i + 1).drop_last() =~= s.user_dirs@.subrange(0, i as int));
            if d.accessible {
                let item = make_item(derived_label_of(&d.path), d.path.clone(), icon_for(d.kind), true);
                let ghost before = favorites@;
                let ghost iv = item_view(item);
                favorites.push(item);
                assert(item_views(favorites@) =~= item_views(before).push(iv));
            }
            i = i + 1;
        }
        assert(s.user_dirs@.subrange(0, i as int) =~= s.user_dirs@);
        let ghost fixed = item_views(favorites@);
        match &s.network_root {
            Some(n) => if n.accessible {
                let item = make_item(owned("Network"), n.path.clone(), FileManagerLocationIcon::Network, true);
                let ghost iv = item_view(item);
                favorites.push(item);
                assert(item_views(favorites@) =~= fixed.push(iv));
            },
            None => {},
        }
        let ghost with_network = item_views(favorites@);
        let (files, container) = trash_candidates(s.home.path.as_str());
        if s.trash_files_accessible {
            let item = make_item(owned("Trash"), files, FileManagerLocationIcon::Trash, true);
            let ghost iv = item_view(item);
            favorites.push(item);
            assert(item_views(favorites@) =~= with_network.push(iv));
        } else if s.trash_container_accessible {
            let item = make_item(owned("Trash"), container, FileManagerLocationIcon::Trash, true);
            let ghost iv = item_view(item);
            favorites.push(item);
            assert(item_views(favorites@) =~= with_network.push(iv));
        }
        assert(item_views(favorites@) =~= host_favorites(*s));

        let mut bookmarks: Vec<FileManagerLocationItem> = Vec::new();
        let mut k: usize = 0;
        while k < s.bookmarks.len()
            invariant
                k <= s.bookmarks@.len(),
                item_views(bookmarks@) == bookmark_rows(s.bookmarks@.subrange(0, k as int)),
            decreases s.bookmarks.len() - k,
        {
            let b = &s.bookmarks[k];
            let label = match &b.label {
                Some(l) => l.clone(),
                None => derived_label_of(&b.path),
            };
            let item = make_item(label, b.path.clone(), FileManagerLocationIcon::Bookmark, b.accessible);
            let ghost before = bookmarks@;
            let ghost iv = item_view(item);
            bookmarks.push(item);
            assert(item_views(bookmarks@) =~= item_views(before).push(iv));
            assert(bookmark_rows(s.bookmarks@.subrange(0, k + 1)) =~= bookmark_rows(s.bookmarks@.subrange(0, k as int)).push(iv));
            k = k + 1;
        }
        assert(s.bookmarks@.subrange(0, k as int) =~= s.bookmarks@);

        let mut pinned: Vec<FileManagerLocationItem> = Vec::new();
        assert(item_views(pinned@) =~= Seq::<ItemView>::empty());
        probed_rows(&mut pinned, &s.pinned, FileManagerLocationIcon::Pin);
        assert(item_views(pinned@) =~= pinned_rows(s.pinned@));

        let mut locations: Vec<FileManagerLocationItem> = Vec::new();
        assert(item_views(locations@) =~= Seq::<ItemView>::empty());
        probed_rows(&mut locations, &s.volumes, FileManagerLocationIcon::Disk);
        let ghost vols = item_views(locations@);
        match filesystem_root(s.home.path.as_str()) {
            Some(root) => {
                let item = make_item(owned("Root"), root, FileManagerLocationIcon::Disk, s.root_accessible);
                let ghost iv = item_view(item);
                locations.push(item);
                assert(item_views(locations@) =~= vols.push(iv));
            },
            None => {},
        }
        assert(item_views(locations@) =~= location_rows(*s));
        let ghost fv = favorites@;
        let ghost bv = bookmarks@;
        let ghost pv = pinned@;
        let ghost lv = locations@;
        let r = Self::from_ordered_sources(favorites, bookmarks, pinned, locations);
        assert(r.view_sections() == ordered_locations(fv, bv, pv, lv));
        r
    }
}

/// A sidebar row, as plain values.
pub struct SidebarItemView {
    pub label: Seq<char>,
    pub path: Seq<char>,
    pub icon: FileManagerSidebarIcon,
    pub accessible: bool,
    pub ejectable: bool,
}

pub open spec fn sidebar_item_views(s: Seq<FileManagerSidebarItem>) -> Seq<SidebarItemView> {
    s.map_values(|i: FileManagerSidebarItem| SidebarItemView {
        label: i.label@,
        path: i.path@,
        icon: i.icon,
        accessible: i.accessible,
        ejectable: i.ejectable,
    })
}

pub open spec fn srow(label: Seq<char>, path: Seq<char>, icon: FileManagerSidebarIcon, accessible: bool) -> SidebarItemView {
    SidebarItemView { label, path, icon, accessible, ejectable: false }
}

fn make_sidebar_item(label: String, path: String, icon: FileManagerSidebarIcon, accessible: bool) -> (r: FileManagerSidebarItem)
    ensures
        sidebar_item_views(seq![r]) == seq![srow(label@, path@, icon, accessible)],
{
    let r = FileManagerSidebarItem { label, path, icon, accessible, ejectable: false };
    assert(sidebar_item_views(seq![r]) =~= seq![srow(r.label@, r.path@, icon, accessible)]);
    r
}

/// The sidebar's well-known children of home, in order: label, the child
/// path under home, and icon.
pub open spec fn sidebar_children() -> Seq<(Seq<char>, Seq<char>, FileManagerSidebarIcon)> {
    seq![
        ("Desktop"@, "Desktop"@, FileManagerSidebarIcon::Desktop),
        ("Downloads"@, "Downloads"@, FileManagerSidebarIcon::Downloads),
        ("Documents"@, "Documents"@, FileManagerSidebarIcon::Documents),
        ("Pictures"@, "Pictures"@, FileManagerSidebarIcon::Pictures),
        ("Videos"@, "Videos"@, FileManagerSidebarIcon::Videos),
        ("Music"@, "Music"@, FileManagerSidebarIcon::Music),
        ("Trash"@, ".local/share/Trash"@, FileManagerSidebarIcon::Trash),
    ]
}

/// The paths the sidebar probes under home, in `sidebar_children` order.
pub fn sidebar_child_paths(home: &str) -> (r: Vec<String>)
    ensures
        r@.len() == 7,
        forall|i: int| 0 <= i < 7 ==> r@[i]@ == path_join(home@, #[trigger] sidebar_children()[i].1),
{
    let mut r: Vec<String> = Vec::new();
    r.push(join_path(home, "Desktop"));
    r.push(join_path(home, "Downloads"));
    r.push(join_path(home, "Documents"));
    r.push(join_path(home, "Pictures"));
    r.push(join_path(home, "Videos"));
    r.push(join_path(home, "Music"));
    r.push(join_path(home, ".local/share/Trash"));
    r
}

/// The sidebar's built-in block: Home, then each well-known child that is
/// there.
pub open spec fn sidebar_favorites(home: Seq<char>, home_ok: bool, child_ok: Seq<bool>) -> Seq<SidebarItemView>
    decreases child_ok.len(),
{
    if child_ok.len() == 0 {
        seq![srow("Home"@, home, FileManagerSidebarIcon::Home, home_ok)]
    } else {
        let prev = sidebar_favorites(home, home_ok, child_ok.drop_last());
        let i = child_ok.len() - 1;
        if child_ok.last() && i < 7 {
            let c = sidebar_children()[i];
            prev.push(srow(c.0, path_join(home, c.1), c.2, true))
        } else {
            prev
        }
    }
}

impl FileManagerSidebarModel {
    /// The startup sidebar: Home, the well-known children of home that are
    /// accessible (`child_ok` answers for `sidebar_child_paths`, in order),
    /// the pins under their own names, and the filesystem root.
    pub fn from_home_and_pins(home: &ProbedPath, child_ok: &Vec<bool>, pinned: &Vec<ProbedPath>, root_accessible: bool) -> (r: Self)
        requires
            child_ok@.len() == 7,
        ensures
            exists|f: Seq<FileManagerSidebarItem>, p: Seq<FileManagerSidebarItem>, l: Seq<FileManagerSidebarItem>|
                sidebar_item_views(f) == sidebar_favorites(home.path@, home.accessible, child_ok@)
                    && sidebar_item_views(p) == pinned@.map_values(
                    |x: ProbedPath| srow(derived_label(x.path@), x.path@, FileManagerSidebarIcon::Pin, x.accessible),
                ) && sidebar_item_views(l) == (match root_spec(home.path@) {
                    Some(root) => seq![srow("Root"@, root, FileManagerSidebarIcon::Disk, root_accessible)],
                    None => Seq::empty(),
                }) && r.view_sections() == #[trigger] ordered_sidebar(f, p, l),
            r.revision_spec() == 1,
    {
        let mut favorites: Vec<FileManagerSidebarItem> = Vec::new();
        favorites.push(make_sidebar_item(owned("Home"), home.path.clone(), FileManagerSidebarIcon::Home, home.accessible));
        assert(sidebar_item_views(favorites@) =~= sidebar_favorites(home.path@, home.accessible, child_ok@.subrange(0, 0)));
        let paths = sidebar_child_paths(home.path.as_str());
        let labels: Vec<&str> = vec!["Desktop", "Downloads", "Documents", "Pictures", "Videos", "Music", "Trash"];
        let icons: Vec<FileManagerSidebarIcon> = vec![
            FileManagerSidebarIcon::Desktop,
            FileManagerSidebarIcon::Downloads,
            FileManagerSidebarIcon::Documents,
            FileManagerSidebarIcon::Pictures,
            FileManagerSidebarIcon::Videos,
            FileManagerSidebarIcon::Music,
            FileManagerSidebarIcon::Trash,
        ];
        let mut i: usize = 0;
        while i < 7
            invariant
                i <= 7,
                child_ok@.len() == 7,
                paths@.len() == 7,
                forall|j: int| 0 <= j < 7 ==> paths@[j]@ == path_join(home.path@, #[trigger] sidebar_children()[j].1),
                labels@.len() == 7,
                forall|j: int| 0 <= j < 7 ==> labels@[j]@ == #[trigger] sidebar_children()[j].0,
                icons@ == seq![
                    FileManagerSidebarIcon::Desktop,
                    FileManagerSidebarIcon::Downloads,
                    FileManagerSidebarIcon::Documents,
                    FileManagerSidebarIcon::Pictures,
                    FileManagerSidebarIcon::Videos,
                    FileManagerSidebarIcon::Music,
                    FileManagerSidebarIcon::Trash,
                ],
                sidebar_item_views(favorites@) == sidebar_favorites(home.path@, home.accessible, child_ok@.subrange(0, i as int)),
            decreases 7 - i,
        {
            assert(child_ok@.subrange(0, i + 1).drop_last() =~= child_ok@.subrange(0, i as int));
            if child_ok[i] {
                assert(icons@[i as int] == sidebar_children()[i as int].2);
                let item = make_sidebar_item(owned(labels[i]), paths[i].clone(), icons[i], true);
                let ghost before = favorites@;
                favorites.push(item);
                assert(sidebar_item_views(favorites@) =~= sidebar_item_views(before) + sidebar_item_views(seq![item]));
            }
            i = i + 1;
        }
        assert(child_ok@.subrange(0, 7) =~= child_ok@);

        let mut pins: Vec<FileManagerSidebarItem> = Vec::new();
        let mut k: usize = 0;
        while k < pinned.len()
            invariant
                k <= pinned@.len(),
                sidebar_item_views(pins@) == pinned@.subrange(0, k as int).map_values(
                    |x: ProbedPath| srow(derived_label(x.path@), x.path@, FileManagerSidebarIcon::Pin, x.accessible),
                ),
            decreases pinned.len() - k,
        {
            let p = &pinned[k];
            let item = make_sidebar_item(derived_label_of(&p.path), p.path.clone(), FileManagerSidebarIcon::Pin, p.accessible);
            let ghost before = pins@;
            pins.push(item);
            assert(sidebar_item_views(pins@) =~= sidebar_item_views(before) + sidebar_item_views(seq![item]));
            assert(pinned@.subrange(0, k + 1).map_values(
                |x: ProbedPath| srow(derived_label(x.path@), x.path@, FileManagerSidebarIcon::Pin, x.accessible),
            ) =~= pinned@.subrange(0, k as int).map_values(
                |x: ProbedPath| srow(derived_label(x.path@), x.path@, FileManagerSidebarIcon::Pin, x.accessible),
            ) + sidebar_item_views(seq![item]));
            k = k + 1;
        }
        assert(pinned@.subrange(0, k as int) =~= pinned@);

        let mut locations: Vec<FileManagerSidebarItem> = Vec::new();
        match filesystem_root(home.path.as_str()) {
            Some(root) => {
                let item = make_sidebar_item(owned("Root"), root, FileManagerSidebarIcon::Disk, root_accessible);
                locations.push(item);
                assert(locations@ =~= seq![item]);
            },
            None => {
                assert(sidebar_item_views(locations@) =~= Seq::<SidebarItemView>::empty());
            },
        }
        let ghost fv = favorites@;
        let ghost pv = pins@;
        let ghost lv = locations@;
        let r = Self::from_sources(favorites, pins, locations);
        assert(r.view_sections() == ordered_sidebar(fv, pv, lv));
        r
    }
}

} // verus!
