use file_browser_core::browser::FileBrowser;
use file_browser_core::drag::{FileDragNativeDndState, FileDragPhase, FileDragState, FileDragStationaryAction};
use file_browser_core::fs_path::FsPath;
use file_browser_core::model::BrowserPaneId;
use file_browser_core::wayland_source::WaylandFileDragSourceEvent;

fn path(text: &str) -> FsPath {
    FsPath::from_text(text)
}

fn install_internal_source(browser: &mut FileBrowser, session: u64, native_dnd: FileDragNativeDndState) {
    browser.file_drag = Some(FileDragState {
        gesture_id: 1,
        source_pane_id: BrowserPaneId(0),
        source_tab_id: 0,
        pressed_path: path("/workspace/source.txt"),
        sources: vec![path("/workspace/source.txt")],
        bookmark_source: None,
        stationary_action: FileDragStationaryAction::SelectionOnly,
        phase: FileDragPhase::Dragging,
        native_dnd,
        column_directories_snapshot: vec![],
        target: None,
        wayland_target: None,
    });
    assert_eq!(browser.file_drag.as_ref().unwrap().native_dnd.session_id(), Some(session));
}

#[test]
fn rejected_or_cancelled_source_clears_only_its_own_drag() {
    let mut browser = FileBrowser::new(path("/workspace"));
    install_internal_source(&mut browser, 7, FileDragNativeDndState::Started(7));

    browser.accept_wayland_source_event(WaylandFileDragSourceEvent::Rejected {
        session_id: 8,
        details: "stale rejection".to_owned(),
    });
    assert_eq!(browser.file_drag.as_ref().and_then(|drag| drag.native_dnd.session_id()), Some(7));
    assert!(browser.error.is_none());

    browser.accept_wayland_source_event(WaylandFileDragSourceEvent::Cancelled(7));
    assert!(browser.file_drag.is_none());
}

#[test]
fn source_progress_follows_the_desktop() {
    let mut browser = FileBrowser::new(path("/workspace"));
    install_internal_source(&mut browser, 3, FileDragNativeDndState::Requested(3));
    browser.accept_wayland_source_event(WaylandFileDragSourceEvent::Started(4));
    assert_eq!(browser.file_drag.as_ref().unwrap().native_dnd, FileDragNativeDndState::Requested(3));
    browser.accept_wayland_source_event(WaylandFileDragSourceEvent::Started(3));
    assert_eq!(browser.file_drag.as_ref().unwrap().native_dnd, FileDragNativeDndState::Started(3));
    browser.accept_wayland_source_event(WaylandFileDragSourceEvent::Dropped(3));
    assert_eq!(browser.file_drag.as_ref().unwrap().native_dnd, FileDragNativeDndState::Dropped(3));
    browser.accept_wayland_source_event(WaylandFileDragSourceEvent::Finished(3));
    assert!(browser.file_drag.is_none());
}

#[test]
fn refused_drag_shows_why() {
    let mut browser = FileBrowser::new(path("/workspace"));
    install_internal_source(&mut browser, 5, FileDragNativeDndState::Requested(5));
    browser.accept_wayland_source_event(WaylandFileDragSourceEvent::Rejected {
        session_id: 5,
        details: "no seat".to_owned(),
    });
    assert!(browser.file_drag.is_none());
    assert_eq!(browser.error.as_deref(), Some("Could not start Wayland file drag: no seat"));
}
