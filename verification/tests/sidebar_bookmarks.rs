use file_browser_core::browser::{DirectoryEntry, FileBrowser};
use file_browser_core::fs_path::FsPath;
use file_browser_core::model::{FileKind, SidebarBookmarkDropSlot};
use file_browser_core::sidebar_bookmarks::{
    shifted_sidebar_bookmark_paths, sidebar_bookmark_label, sidebar_device_action_error_verb, SidebarBookmarkDragOutcome,
    SidebarBookmarkDragState, SidebarDeviceAction, SidebarLocation, SidebarLocationKind,
};

fn path(text: &str) -> FsPath {
    FsPath::from_text(text)
}

fn bookmark(text: &str) -> SidebarLocation {
    SidebarLocation {
        label: sidebar_bookmark_label(&path(text)),
        path: path(text),
        kind: SidebarLocationKind::Bookmark,
    }
}

fn directory_entry(p: &FsPath) -> DirectoryEntry {
    DirectoryEntry { path: p.clone(), kind: FileKind::Directory }
}

fn browser_with_bookmarks(bookmarks: Vec<SidebarLocation>) -> FileBrowser {
    let mut browser = FileBrowser::new(path("/home/user"));
    browser.sidebar_locations = bookmarks;
    browser.is_loading = false;
    browser
}

fn favorite_paths(browser: &FileBrowser) -> Vec<FsPath> {
    browser.sidebar_favorite_locations().into_iter().map(|l| l.path).collect()
}

#[test]
fn dropped_directory_inserts_bookmark_at_slot_index() {
    let mut browser = browser_with_bookmarks(vec![bookmark("/home/user/alpha"), bookmark("/home/user/beta")]);
    let source = path("/home/user/projects");
    browser.entries = vec![directory_entry(&source)];

    drop(browser.insert_sidebar_bookmark_from_drag(SidebarBookmarkDropSlot::Insert { index: 1 }, source.clone()));

    let favorites = browser.sidebar_favorite_locations();
    assert_eq!(favorites[0].path, path("/home/user/alpha"));
    assert_eq!(favorites[1].path, source);
    assert_eq!(favorites[2].path, path("/home/user/beta"));
}

#[test]
fn duplicate_bookmark_is_not_inserted_again() {
    let existing = path("/home/user/alpha");
    let mut browser = browser_with_bookmarks(vec![bookmark("/home/user/alpha")]);
    browser.entries = vec![directory_entry(&existing)];

    drop(browser.insert_sidebar_bookmark_from_drag(SidebarBookmarkDropSlot::Insert { index: 0 }, existing));

    assert_eq!(browser.sidebar_favorite_locations().len(), 1);
}

#[test]
fn bookmark_insert_slot_past_the_end_appends() {
    let mut browser = browser_with_bookmarks(vec![bookmark("/a")]);
    let source = path("/b");
    browser.entries = vec![directory_entry(&source)];
    assert!(browser.insert_sidebar_bookmark_from_drag(SidebarBookmarkDropSlot::Insert { index: 9 }, source.clone()));
    assert_eq!(favorite_paths(&browser), vec![path("/a"), source]);
    assert!(browser.sidebar_bookmark_drop_slot.is_none());
}

#[test]
fn file_is_not_bookmarked() {
    let mut browser = browser_with_bookmarks(vec![]);
    let source = path("/notes.txt");
    browser.entries = vec![DirectoryEntry { path: source.clone(), kind: FileKind::File }];
    assert!(!browser.insert_sidebar_bookmark_from_drag(SidebarBookmarkDropSlot::Insert { index: 0 }, source));
    assert!(browser.sidebar_favorite_locations().is_empty());
}

#[test]
fn bookmark_label_uses_name_or_whole_path() {
    assert_eq!(sidebar_bookmark_label(&path("/home/user/projects")), "projects");
    assert_eq!(sidebar_bookmark_label(&path("/")), "/");
}

#[test]
fn fixed_places_stay_first_when_bookmarks_are_replaced() {
    let home = SidebarLocation { label: "Home".to_owned(), path: path("/home/user"), kind: SidebarLocationKind::Home };
    let mut browser = browser_with_bookmarks(vec![bookmark("/a"), home.clone(), bookmark("/b")]);
    browser.replace_sidebar_favorites(vec![bookmark("/c")]);
    assert_eq!(browser.sidebar_locations.len(), 2);
    assert_eq!(browser.sidebar_locations[0].path, home.path);
    assert_eq!(browser.sidebar_locations[1].path, path("/c"));
}

#[test]
fn reordering_moves_dragged_bookmark_and_keeps_the_set() {
    let mut browser = browser_with_bookmarks(vec![bookmark("/a"), bookmark("/b"), bookmark("/c")]);
    assert!(browser.start_sidebar_bookmark_drag(path("/a")));
    if let Some(drag) = &mut browser.sidebar_bookmark_drag {
        drag.dragging = true;
    }
    browser.reorder_sidebar_bookmark(path("/c"));
    assert_eq!(favorite_paths(&browser), vec![path("/b"), path("/c"), path("/a")]);
    assert!(browser.sidebar_bookmark_motion.contains(&path("/b")));
    assert!(browser.sidebar_bookmark_motion.contains(&path("/c")));
    assert_eq!(browser.finish_sidebar_bookmark_drag(), SidebarBookmarkDragOutcome::Save);
    assert!(browser.sidebar_bookmark_drag.is_none());
}

#[test]
fn press_without_drag_opens_the_bookmark() {
    let mut browser = browser_with_bookmarks(vec![bookmark("/a")]);
    assert!(browser.start_sidebar_bookmark_drag(path("/a")));
    assert_eq!(
        browser.sidebar_bookmark_drag,
        Some(SidebarBookmarkDragState { path: path("/a"), source_index: 0, dragging: false, order_changed: false })
    );
    assert_eq!(browser.finish_sidebar_bookmark_drag(), SidebarBookmarkDragOutcome::Navigate(path("/a")));
}

#[test]
fn deleting_a_bookmark_removes_it_and_its_motion() {
    let mut browser = browser_with_bookmarks(vec![bookmark("/a"), bookmark("/b")]);
    browser.sidebar_bookmark_motion = vec![path("/a"), path("/b")];
    browser.hovered_sidebar = Some(path("/a"));
    assert!(browser.delete_sidebar_bookmark(path("/a")));
    assert_eq!(favorite_paths(&browser), vec![path("/b")]);
    assert_eq!(browser.sidebar_bookmark_motion, vec![path("/b")]);
    assert!(browser.hovered_sidebar.is_none());
    assert!(!browser.delete_sidebar_bookmark(path("/zzz")));
}

#[test]
fn shifted_bookmark_paths_cover_the_rows_passed_over() {
    let favorites = vec![bookmark("/a"), bookmark("/b"), bookmark("/c"), bookmark("/d")];
    assert_eq!(shifted_sidebar_bookmark_paths(&favorites, 0, 2), vec![path("/b"), path("/c")]);
    assert_eq!(shifted_sidebar_bookmark_paths(&favorites, 3, 1), vec![path("/b"), path("/c")]);
    assert!(shifted_sidebar_bookmark_paths(&favorites, 2, 2).is_empty());
}

#[test]
fn finished_motion_is_pruned() {
    let mut browser = browser_with_bookmarks(vec![bookmark("/a"), bookmark("/b")]);
    browser.sidebar_bookmark_motion = vec![path("/a"), path("/b"), path("/gone")];
    browser.prune_sidebar_bookmark_motion(&vec![path("/a")]);
    assert_eq!(browser.sidebar_bookmark_motion, vec![path("/b")]);
    assert!(browser.sidebar_bookmark_motion_is_active());
}

#[test]
fn device_error_verbs() {
    assert_eq!(sidebar_device_action_error_verb(SidebarDeviceAction::Mount), "mount");
    assert_eq!(sidebar_device_action_error_verb(SidebarDeviceAction::Unmount), "unmount");
    assert_eq!(sidebar_device_action_error_verb(SidebarDeviceAction::Eject), "eject");
}

#[test]
fn dragging_a_bookmark_beside_the_sidebar_moves_it_to_the_pointed_row() {
    let mut browser = browser_with_bookmarks(vec![bookmark("/a"), bookmark("/b"), bookmark("/c")]);
    assert_eq!(browser.update_sidebar_bookmark_drag(true, false, 2), None);
    assert!(browser.start_sidebar_bookmark_drag(path("/a")));

    assert_eq!(browser.update_sidebar_bookmark_drag(false, false, 2), None);
    assert!(!browser.sidebar_bookmark_drag.as_ref().unwrap().dragging);

    assert_eq!(browser.update_sidebar_bookmark_drag(true, true, 2), None);
    assert!(browser.sidebar_bookmark_drag.as_ref().unwrap().dragging);
    assert_eq!(favorite_paths(&browser), vec![path("/a"), path("/b"), path("/c")]);

    assert_eq!(browser.update_sidebar_bookmark_drag(false, false, 7), None);
    assert_eq!(browser.update_sidebar_bookmark_drag(false, false, 2), Some(path("/c")));
    assert_eq!(favorite_paths(&browser), vec![path("/b"), path("/c"), path("/a")]);
    assert_eq!(browser.hovered_sidebar, Some(path("/c")));
    assert!(browser.sidebar_bookmark_drag.as_ref().unwrap().order_changed);

    assert_eq!(browser.update_sidebar_bookmark_drag(false, false, 2), None);
}
