use herdr_core::locations_model::{
    FileManagerLocationIcon, FileManagerLocationItem, FileManagerLocationSectionKind, FileManagerLocationsModel,
};
use herdr_core::paths::{canonical_path, same_path};

fn item(path: &str) -> FileManagerLocationItem {
    FileManagerLocationItem {
        label: path.to_string(),
        path: path.to_string(),
        icon: FileManagerLocationIcon::Pin,
        accessible: true,
        ejectable: false,
    }
}

#[test]
fn a_path_is_its_components() {
    assert_eq!(canonical_path("/a/b/"), "/a/b");
    assert_eq!(canonical_path("/a//b"), "/a/b");
    assert_eq!(canonical_path("/a/./b/."), "/a/b");
    assert_eq!(canonical_path("./a"), "./a");
    assert_eq!(canonical_path("a/.."), "a/..");
    assert_eq!(canonical_path("/"), "/");
    assert_eq!(canonical_path("//"), "/");
    assert_eq!(canonical_path(""), "");
    assert_eq!(canonical_path("."), ".");
    assert!(same_path("/home/u/", "/home/u"));
    assert!(!same_path("/home/u", "home/u"));
    assert!(!same_path("/a/b", "/a/b/c"));
}

#[test]
fn the_same_path_written_twice_is_one_item_and_found_either_way() {
    let model = FileManagerLocationsModel::from_sources(vec![item("/work")], vec![item("/work/")], Vec::new());
    assert_eq!(model.item_count(), 1, "a pin naming a favorite again is absorbed");
    assert_eq!(model.item_for_path("/work/").map(|i| i.path.as_str()), Some("/work"));
    assert_eq!(model.line_index_for_path("/work//"), Some(1));
}

#[test]
fn a_path_is_drawn_once_under_the_first_section_that_claims_it() {
    let model = FileManagerLocationsModel::from_ordered_sources(
        vec![item("/a")],
        vec![item("/b"), item("/a/")],
        vec![item("/a"), item("/c")],
        vec![item("/b/")],
    );
    let drawn: Vec<(FileManagerLocationSectionKind, Vec<String>)> = model
        .sections
        .iter()
        .map(|s| (s.kind, s.items.iter().map(|i| i.path.clone()).collect()))
        .collect();
    assert_eq!(
        drawn,
        vec![
            (FileManagerLocationSectionKind::Favorites, vec!["/a".to_string()]),
            (FileManagerLocationSectionKind::Bookmarks, vec!["/b".to_string()]),
            (FileManagerLocationSectionKind::Pinned, vec!["/c".to_string()]),
        ],
        "later duplicates are dropped and an emptied source draws no section"
    );
    assert_eq!(model.item_count(), 3);
    assert_eq!(model.revision(), 1);
}

#[test]
fn the_rail_stops_at_its_ceiling() {
    let many: Vec<FileManagerLocationItem> = (0..300).map(|i| item(&format!("/p{}", i))).collect();
    let model = FileManagerLocationsModel::from_ordered_sources(many, vec![item("/extra")], Vec::new(), Vec::new());
    assert_eq!(model.item_count(), 256);
    assert_eq!(model.sections.len(), 1);
}
