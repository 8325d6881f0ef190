use herdr_core::locations_host::{
    filesystem_root, sidebar_child_paths, trash_candidates, DesktopBookmark, LocationHostSources,
    ProbedPath, UserDirectory, UserDirectoryKind,
};
use herdr_core::locations_model::{FileManagerLocationIcon, FileManagerLocationSectionKind, FileManagerLocationsModel};
use herdr_core::paths::derived_label_of;
use herdr_core::sidebar::{FileManagerSidebarModel, FileManagerSidebarSectionKind};

fn probed(path: &str, accessible: bool) -> ProbedPath {
    ProbedPath { path: path.to_string(), accessible }
}

fn labels(model: &FileManagerLocationsModel, kind: FileManagerLocationSectionKind) -> Vec<String> {
    model
        .section(kind)
        .map(|section| section.items.iter().map(|item| item.label.clone()).collect())
        .unwrap_or_default()
}

#[test]
fn the_host_rail_orders_its_sections_and_dedups_by_first_claim() {
    let sources = LocationHostSources {
        home: probed("/home/u", true),
        user_dirs: vec![
            UserDirectory { kind: UserDirectoryKind::Downloads, path: "/home/u/İndirilenler".to_string(), accessible: true },
            UserDirectory { kind: UserDirectoryKind::Music, path: "/home/u/Music".to_string(), accessible: false },
        ],
        volumes: vec![probed("/media/usb", true)],
        network_root: Some(probed("/mnt/net", true)),
        bookmarks: vec![
            DesktopBookmark { label: None, path: "/home/u/İndirilenler".to_string(), accessible: true },
            DesktopBookmark { label: Some("Work".to_string()), path: "/srv/work".to_string(), accessible: false },
        ],
        pinned: vec![probed("/opt/tools", true)],
        trash_files_accessible: false,
        trash_container_accessible: true,
        root_accessible: true,
    };
    let model = FileManagerLocationsModel::from_host_sources(&sources);
    assert_eq!(
        labels(&model, FileManagerLocationSectionKind::Favorites),
        vec!["Home", "İndirilenler", "Network", "Trash"]
    );
    assert_eq!(labels(&model, FileManagerLocationSectionKind::Bookmarks), vec!["Work"], "the duplicate is absorbed");
    assert_eq!(labels(&model, FileManagerLocationSectionKind::Pinned), vec!["tools"]);
    assert_eq!(labels(&model, FileManagerLocationSectionKind::Locations), vec!["usb", "Root"]);
    let trash = model.item_for_path("/home/u/.local/share/Trash").expect("the container is the fallback");
    assert_eq!(trash.icon, FileManagerLocationIcon::Trash);
    let work = model.item_for_path("/srv/work").expect("a gone bookmark stays visible");
    assert!(!work.accessible);
    assert_eq!(model.item_for_path("/").map(|item| item.label.as_str()), Some("Root"));
    assert_eq!(model.revision(), 1);
}

#[test]
fn the_trash_prefers_its_files_directory() {
    let (files, container) = trash_candidates("/home/u");
    assert_eq!(files, "/home/u/.local/share/Trash/files");
    assert_eq!(container, "/home/u/.local/share/Trash");
    assert_eq!(filesystem_root("/home/u").as_deref(), Some("/"));
    assert_eq!(filesystem_root("relative/home"), None);
    assert_eq!(derived_label_of(&"/".to_string()), "/");
    assert_eq!(derived_label_of(&"/a/b/".to_string()), "b");
}

#[test]
fn the_startup_sidebar_lists_home_its_present_children_pins_and_root() {
    let paths = sidebar_child_paths("/home/u");
    assert_eq!(paths[0], "/home/u/Desktop");
    assert_eq!(paths[6], "/home/u/.local/share/Trash");
    let child_ok = vec![true, false, true, false, false, false, true];
    let model = FileManagerSidebarModel::from_home_and_pins(
        &probed("/home/u", true),
        &child_ok,
        &vec![probed("/home/u/Desktop", true), probed("/data", false)],
        true,
    );
    let favorites: Vec<String> = model
        .section(FileManagerSidebarSectionKind::Favorites)
        .map(|s| s.items.iter().map(|i| i.label.clone()).collect())
        .unwrap_or_default();
    assert_eq!(favorites, vec!["Home", "Desktop", "Documents", "Trash"]);
    let pinned: Vec<String> = model
        .section(FileManagerSidebarSectionKind::Pinned)
        .map(|s| s.items.iter().map(|i| i.label.clone()).collect())
        .unwrap_or_default();
    assert_eq!(pinned, vec!["data"], "a pin that the built-in block claimed is absorbed");
    assert!(model.item_for_path("/").is_some());
}

#[test]
fn a_sidebar_click_opens_only_an_accessible_directory_on_the_files_tab() {
    let model = FileManagerSidebarModel::from_home_and_pins(
        &probed("/home/u", true),
        &vec![true, false, false, false, false, false, false],
        &vec![probed("/data", false)],
        true,
    );
    assert!(model.navigation_opens(true, "/home/u/Desktop", true));
    assert!(!model.navigation_opens(false, "/home/u/Desktop", true));
    assert!(!model.navigation_opens(true, "/home/u/Desktop", false));
    assert!(!model.navigation_opens(true, "/data", true), "an inaccessible pin is not opened");
    assert!(!model.navigation_opens(true, "/elsewhere", true), "a path outside the sidebar is not opened");
}

#[test]
fn a_click_on_a_sidebar_row_names_its_path() {
    use_row_areas();
}

fn use_row_areas() {
    let areas = vec![
        herdr_core::sidebar::FileManagerSidebarRowArea {
            rect: herdr_core::geometry::CellRect { x: 0, y: 1, width: 20, height: 1 },
            path: "/home/u".into(),
        },
        herdr_core::sidebar::FileManagerSidebarRowArea {
            rect: herdr_core::geometry::CellRect { x: 0, y: 2, width: 20, height: 1 },
            path: "/data".into(),
        },
    ];
    assert_eq!(herdr_core::sidebar::sidebar_path_at(&areas, 3, 2), Some("/data"));
    assert_eq!(herdr_core::sidebar::sidebar_path_at(&areas, 3, 1), Some("/home/u"));
    assert_eq!(herdr_core::sidebar::sidebar_path_at(&areas, 3, 0), None);
    assert_eq!(herdr_core::sidebar::sidebar_path_at(&areas, 20, 1), None);
}
