use file_browser_core::browser::FileBrowser;
use file_browser_core::drag::{
    FileDragNativeDndState, FileDragPhase, FileDragStationaryAction, FileDragState, WaylandFileDragTargetSnapshot,
};
use file_browser_core::fs_path::FsPath;
use file_browser_core::model::{BrowserPaneId, FileDropTarget, SidebarBookmarkDropSlot};

fn path(text: &str) -> FsPath {
    FsPath::from_text(text)
}

fn dragging_browser() -> FileBrowser {
    let mut browser = FileBrowser::new(path("/w"));
    browser.file_drag = Some(FileDragState {
        gesture_id: 1,
        source_pane_id: BrowserPaneId(0),
        source_tab_id: 0,
        pressed_path: path("/w/a"),
        sources: vec![path("/w/a")],
        bookmark_source: None,
        stationary_action: FileDragStationaryAction::SelectionOnly,
        phase: FileDragPhase::Dragging,
        native_dnd: FileDragNativeDndState::Started(4),
        column_directories_snapshot: vec![],
        target: None,
        wayland_target: Some(WaylandFileDragTargetSnapshot { session_id: 4, has_position: false, target: None }),
    });
    browser
}

#[test]
fn directory_under_the_pointer_becomes_the_paste_directory() {
    let mut browser = dragging_browser();
    let target = browser.refresh_wayland_file_drag_target_at_position(
        Some((FileDropTarget::Directory(path("/w/dir")), Some(path("/w/dir")))),
        false,
    );
    assert_eq!(target, Some(FileDropTarget::Directory(path("/w/dir"))));
    assert_eq!(browser.hovered_entry, Some(path("/w/dir")));
    assert_eq!(browser.cursor_paste_directory, Some(path("/w/dir")));
    assert_eq!(browser.hovered_sidebar, None);
    let drag = browser.file_drag.as_ref().unwrap();
    assert_eq!(drag.target, target);
    let snapshot = drag.wayland_target.as_ref().unwrap();
    assert!(snapshot.has_position);
    assert_eq!(snapshot.target, target);
}

#[test]
fn sidebar_directory_highlights_its_row_and_slots_their_slot() {
    let mut browser = dragging_browser();
    browser.refresh_wayland_file_drag_target_at_position(Some((FileDropTarget::Directory(path("/fav")), None)), true);
    assert_eq!(browser.hovered_sidebar, Some(path("/fav")));
    assert_eq!(browser.cursor_paste_directory, None);

    let slot = SidebarBookmarkDropSlot::Insert { index: 1 };
    browser.refresh_wayland_file_drag_target_at_position(Some((FileDropTarget::SidebarBookmarkSlot(slot), None)), true);
    assert_eq!(browser.sidebar_bookmark_drop_slot, Some(slot));
    assert_eq!(browser.hovered_sidebar, None);

    assert_eq!(browser.refresh_wayland_file_drag_target_at_position(None, false), None);
    assert_eq!(browser.sidebar_bookmark_drop_slot, None);
    assert_eq!(browser.file_drag.as_ref().unwrap().target, None);
}
