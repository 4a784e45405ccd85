use file_browser_core::fs_path::FsPath;
use file_browser_core::sidebar_bookmarks::{SidebarLocation, SidebarLocationKind};
use file_browser_core::startup_index::{
    startup_index_common_root_seeds, startup_index_config_root_seed_from_path, startup_index_custom_root_seed,
    startup_index_default_root_kind, startup_index_root_choices, startup_index_visible_entry_ids,
    StartupIndexEntrySelection, StartupIndexRootSeed, StartupIndexTreeEntry,
};

fn path(text: &str) -> FsPath {
    FsPath::from_text(text)
}

fn location(label: &str, p: &str, kind: SidebarLocationKind) -> SidebarLocation {
    SidebarLocation { label: label.to_owned(), path: path(p), kind }
}

#[test]
fn startup_index_common_roots_use_common_directories_not_home() {
    let seeds = startup_index_common_root_seeds(
        &[
            SidebarLocation { label: "Home".to_owned(), path: path("/home/user"), kind: SidebarLocationKind::Home },
            SidebarLocation {
                label: "Documents".to_owned(),
                path: path("/home/user/Documents"),
                kind: SidebarLocationKind::Documents,
            },
            SidebarLocation {
                label: "Downloads".to_owned(),
                path: path("/home/user/Downloads"),
                kind: SidebarLocationKind::Downloads,
            },
        ],
        None,
    );

    assert_eq!(
        seeds.iter().map(|seed| &seed.path).collect::<Vec<_>>(),
        vec![&path("/home/user/Documents"), &path("/home/user/Downloads")]
    );
    assert!(seeds.iter().all(|seed| seed.selection == StartupIndexEntrySelection::Selected));
}

#[test]
fn repeated_common_root_is_offered_once_and_config_root_follows() {
    let config = startup_index_config_root_seed_from_path(Some(&path("/home/user")), Some(path("/home/user/.config")), true);
    let seeds = startup_index_common_root_seeds(
        &[
            location("Music", "/home/user/Music", SidebarLocationKind::Music),
            location("Music again", "/home/user/Music", SidebarLocationKind::Music),
            location("Trash", "trash:", SidebarLocationKind::Trash),
            location("Work", "/work", SidebarLocationKind::Bookmark),
        ],
        config,
    );
    assert_eq!(seeds.len(), 2);
    assert_eq!(seeds[0].label, "Music");
    assert_eq!(seeds[1].label, "User Config");
    assert_eq!(seeds[1].path, path("/home/user/.config"));
}

#[test]
fn config_root_requires_existing_path_inside_home() {
    let home = path("/home/user");
    assert!(startup_index_config_root_seed_from_path(Some(&home), Some(path("/home/user/.config")), false).is_none());
    assert!(startup_index_config_root_seed_from_path(Some(&home), Some(path("/etc/xdg")), true).is_none());
    assert!(startup_index_config_root_seed_from_path(None, Some(path("/home/user/.config")), true).is_none());
    let seed = startup_index_config_root_seed_from_path(Some(&home), Some(path("/home/user/.config")), true)
        .expect("config seed");
    assert_eq!(seed.label, "User Config");
    assert_eq!(seed.selection, StartupIndexEntrySelection::Selected);
}

#[test]
fn custom_root_is_home_and_skipped() {
    let locations = vec![
        location("Docs", "/home/user/Documents", SidebarLocationKind::Documents),
        location("Home", "/home/user", SidebarLocationKind::Home),
    ];
    let custom = startup_index_custom_root_seed(&locations).expect("home seed");
    assert_eq!(
        custom,
        StartupIndexRootSeed { label: "Home".to_owned(), path: path("/home/user"), selection: StartupIndexEntrySelection::Skipped }
    );
    let (common, custom_again) = startup_index_root_choices(&locations, None);
    assert_eq!(common.len(), 1);
    assert_eq!(custom_again, Some(custom));
    assert!(startup_index_custom_root_seed(&[]).is_none());
}

#[test]
fn default_root_kinds_are_the_common_user_directories() {
    for kind in [
        SidebarLocationKind::Desktop,
        SidebarLocationKind::Documents,
        SidebarLocationKind::Downloads,
        SidebarLocationKind::Pictures,
        SidebarLocationKind::Videos,
        SidebarLocationKind::Music,
    ] {
        assert!(startup_index_default_root_kind(kind));
    }
    for kind in [SidebarLocationKind::Home, SidebarLocationKind::Trash, SidebarLocationKind::Bookmark] {
        assert!(!startup_index_default_root_kind(kind));
    }
}

#[test]
fn tree_rows_show_only_under_open_ancestors() {
    let entries = vec![
        StartupIndexTreeEntry { id: 0, parent: None, is_expanded: true, is_opening: false },
        StartupIndexTreeEntry { id: 1, parent: Some(0), is_expanded: false, is_opening: false },
        StartupIndexTreeEntry { id: 2, parent: Some(1), is_expanded: false, is_opening: false },
        StartupIndexTreeEntry { id: 3, parent: Some(0), is_expanded: false, is_opening: true },
        StartupIndexTreeEntry { id: 4, parent: Some(3), is_expanded: false, is_opening: false },
        StartupIndexTreeEntry { id: 5, parent: Some(2), is_expanded: false, is_opening: false },
    ];
    assert_eq!(startup_index_visible_entry_ids(&entries), vec![0, 1, 3, 4]);
}
