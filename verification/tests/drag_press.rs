use file_browser_core::browser::{DirectoryEntry, FileBrowser};
use file_browser_core::drag::{FileDragNativeDndState, FileDragPhase, FileDragStationaryAction};
use file_browser_core::drag_session::{FileDragMove, WaylandFileDragRequest};
use file_browser_core::fs_path::FsPath;
use file_browser_core::model::{BrowserPaneId, FileKind};

fn path(text: &str) -> FsPath {
    FsPath::from_text(text)
}

fn browser() -> FileBrowser {
    let mut browser = FileBrowser::new(path("/workspace"));
    browser.entries = vec![
        DirectoryEntry { path: path("/workspace/dir"), kind: FileKind::Directory },
        DirectoryEntry { path: path("/workspace/file.txt"), kind: FileKind::File },
    ];
    browser
}

#[test]
fn press_on_one_directory_records_it_as_bookmark_source() {
    let mut browser = browser();
    let started = browser.start_file_drag(
        path("/workspace/dir"),
        vec![path("/workspace/dir")],
        FileDragStationaryAction::SelectionOnly,
        vec![path("/workspace")],
    );
    assert!(started);
    let drag = browser.file_drag.as_ref().expect("press recorded");
    assert_eq!(drag.gesture_id, 1);
    assert_eq!(drag.source_pane_id, BrowserPaneId(0));
    assert_eq!(drag.bookmark_source, Some(path("/workspace/dir")));
    assert_eq!(drag.phase, FileDragPhase::WaitingForMovement);
    assert_eq!(drag.column_directories_snapshot, vec![path("/workspace")]);
    assert_eq!(browser.next_file_drag_gesture_id, 1);
}

#[test]
fn press_on_files_or_nothing_has_no_bookmark_source() {
    let mut browser = browser();
    assert!(browser.start_file_drag(
        path("/workspace/file.txt"),
        vec![path("/workspace/file.txt"), path("/workspace/dir")],
        FileDragStationaryAction::SelectionOnly,
        vec![],
    ));
    assert_eq!(browser.file_drag.as_ref().unwrap().bookmark_source, None);

    assert!(!browser.start_file_drag(path("/workspace/file.txt"), vec![], FileDragStationaryAction::SelectionOnly, vec![]));
    assert!(browser.file_drag.is_none());
    assert_eq!(browser.next_file_drag_gesture_id, 2);
}

#[test]
fn no_drag_starts_in_the_trash() {
    let mut browser = browser();
    browser.is_trash_view = true;
    assert!(!browser.start_file_drag(
        path("/workspace/file.txt"),
        vec![path("/workspace/file.txt")],
        FileDragStationaryAction::SelectionOnly,
        vec![],
    ));
    assert!(browser.file_drag.is_none());
    assert_eq!(browser.next_file_drag_gesture_id, 0);
}

#[test]
fn press_becomes_a_drag_once_moved_far_enough() {
    let mut browser = browser();
    assert_eq!(browser.update_file_drag(true, true), FileDragMove::Nothing);
    browser.start_file_drag(
        path("/workspace/file.txt"),
        vec![path("/workspace/file.txt")],
        FileDragStationaryAction::SelectionOnly,
        vec![],
    );
    assert_eq!(browser.update_file_drag(false, true), FileDragMove::Nothing);
    assert_eq!(browser.file_drag.as_ref().unwrap().phase, FileDragPhase::WaitingForMovement);
    assert_eq!(browser.update_file_drag(true, false), FileDragMove::Activated);
    assert_eq!(browser.file_drag.as_ref().unwrap().phase, FileDragPhase::Dragging);
    assert_eq!(browser.update_file_drag(true, false), FileDragMove::Nothing);
    assert_eq!(browser.update_file_drag(false, true), FileDragMove::HandOffAtEdge);
}

fn dragging_browser() -> FileBrowser {
    let mut browser = browser();
    browser.start_file_drag(
        path("/workspace/file.txt"),
        vec![path("/workspace/file.txt")],
        FileDragStationaryAction::SelectionOnly,
        vec![],
    );
    assert_eq!(browser.update_file_drag(true, false), FileDragMove::Activated);
    browser
}

#[test]
fn accepted_desktop_drag_records_its_session() {
    let mut browser = dragging_browser();
    assert_eq!(browser.start_native_file_drag(WaylandFileDragRequest::Requested(12)), None);
    assert_eq!(browser.file_drag.as_ref().unwrap().native_dnd, FileDragNativeDndState::Requested(12));
    assert!(browser.file_drop_session.is_none());
}

#[test]
fn refused_desktop_drag_stays_in_the_window_and_shows_why() {
    let mut browser = dragging_browser();
    let request = browser.start_native_file_drag(WaylandFileDragRequest::Rejected("no seat".to_owned()));
    assert!(request.is_some());
    assert_eq!(browser.error.as_deref(), Some("no seat"));
    assert_eq!(browser.file_drag.as_ref().unwrap().native_dnd, FileDragNativeDndState::NotRequested);
    assert!(browser.file_drop_session.is_some());

    let mut other = dragging_browser();
    assert!(other.start_native_file_drag(WaylandFileDragRequest::Unavailable).is_some());
    assert!(other.error.is_none());
    assert!(other.file_drop_session.is_some());
}
