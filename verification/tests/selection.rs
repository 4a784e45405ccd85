use file_browser_core::browser::{DirectoryEntry, ExpandedDirectory, ExpandedDirectoryStatus, FileBrowser};
use file_browser_core::fs_path::FsPath;
use file_browser_core::model::{BrowserViewMode, FileKind};
use file_browser_core::selection::{stepped_selection_target, SelectionStep};

fn path(text: &str) -> FsPath {
    FsPath::from_text(text)
}

fn entry(p: &str, kind: FileKind) -> DirectoryEntry {
    DirectoryEntry { path: path(p), kind }
}

#[test]
fn keyboard_steps_stay_within_the_list() {
    let paths = vec![path("/a"), path("/b"), path("/c")];
    assert_eq!(stepped_selection_target(&paths, Some(&path("/b")), SelectionStep::Next), Some(path("/c")));
    assert_eq!(stepped_selection_target(&paths, Some(&path("/c")), SelectionStep::Next), Some(path("/c")));
    assert_eq!(stepped_selection_target(&paths, Some(&path("/a")), SelectionStep::Previous), Some(path("/a")));
    assert_eq!(stepped_selection_target(&paths, None, SelectionStep::Previous), Some(path("/c")));
    assert_eq!(stepped_selection_target(&paths, Some(&path("/zzz")), SelectionStep::Next), Some(path("/a")));
    assert_eq!(stepped_selection_target(&[], None, SelectionStep::Next), None);
}

fn browser() -> FileBrowser {
    let mut browser = FileBrowser::new(path("/w"));
    browser.entries = vec![entry("/w/d", FileKind::Directory), entry("/w/f", FileKind::File)];
    browser.expanded_directories = vec![ExpandedDirectory {
        path: path("/w/d"),
        entries: vec![entry("/w/d/x", FileKind::File), entry("/w/d/y", FileKind::File)],
        status: ExpandedDirectoryStatus::Loading,
        is_expanded: true,
    }];
    browser
}

#[test]
fn child_focus_prefers_the_remembered_child() {
    let browser = browser();
    assert_eq!(browser.keyboard_child_focus_target(&path("/w/d"), Some(&path("/w/d/y"))), Some(path("/w/d/y")));
    assert_eq!(browser.keyboard_child_focus_target(&path("/w/d"), Some(&path("/nope"))), Some(path("/w/d/x")));
    assert_eq!(browser.keyboard_child_focus_target(&path("/other"), None), None);
    assert!(browser.directory_children_are_loading(&path("/w/d")));
    assert!(!browser.directory_children_are_loading(&path("/w")));
    assert_eq!(browser.entry_paths_in_directory(&path("/w")), vec![path("/w/d"), path("/w/f")]);
}

#[test]
fn range_selection_covers_both_ends_in_display_order() {
    let browser = browser();
    let visible = vec![path("/w/d"), path("/w/d/x"), path("/w/d/y"), path("/w/f")];
    assert_eq!(
        browser.visible_range_paths(&path("/w/f"), &path("/w/d/x"), &visible),
        vec![path("/w/d/x"), path("/w/d/y"), path("/w/f")]
    );
    assert_eq!(browser.visible_range_paths(&path("/nope"), &path("/w/f"), &visible), vec![path("/w/f")]);
}

#[test]
fn icon_grid_range_stays_in_one_directory() {
    let mut browser = browser();
    browser.view_mode = BrowserViewMode::Icons;
    assert_eq!(browser.visible_range_paths(&path("/w/d/y"), &path("/w/f"), &[]), vec![path("/w/f")]);
    assert_eq!(browser.visible_range_paths(&path("/w/d"), &path("/w/f"), &[]), vec![path("/w/d"), path("/w/f")]);
}
