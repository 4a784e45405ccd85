use file_browser_core::browser::FileBrowser;
use file_browser_core::drop_target::{
    resolve_file_drop_target, sidebar_file_drop_target_for_directory, trash_location_path, EntryDropHit, FileDropHit,
    SidebarBookmarkRowPointerTarget, SidebarDirectoryHit,
};
use file_browser_core::file_drop::{
    tab_file_drop_hover_delay_elapsed, DropLayoutOutcome, FileClipboardOperation, FileClipboardSelection, FileDropAction,
    WaylandDropEvent, X11DropOutcome,
    FileDropLayoutState, FileDropSessionIdentity, FileDropSessionPhase,
};
use file_browser_core::drag::{FileDragNativeDndState, FileDragPhase, FileDragState, FileDragStationaryAction};
use file_browser_core::file_drop::FileDropOrigin;
use file_browser_core::fs_path::FsPath;
use file_browser_core::model::{BrowserPaneId, FileDropTarget, SidebarBookmarkDropSlot, TabDropDestination, TabFileDropTarget};

fn path(text: &str) -> FsPath {
    FsPath::from_text(text)
}

fn empty_hit() -> FileDropHit {
    FileDropHit {
        tabs: vec![],
        empty_sidebar_bookmarks: false,
        sidebar_directories: vec![],
        breadcrumbs: vec![],
        blocked: false,
        entries: vec![],
        directory_targets: vec![],
    }
}

#[test]
fn tab_target_has_priority_over_page_content() {
    let mut hit = empty_hit();
    let tab = TabFileDropTarget { pane_id: BrowserPaneId(0), tab_id: 4, destination: TabDropDestination::Trash };
    hit.tabs = vec![tab.clone()];
    hit.entries = vec![EntryDropHit { directory: path("/w"), path: path("/w/a") }];
    assert_eq!(resolve_file_drop_target(&hit, None), Some(FileDropTarget::Tab(tab)));
}

#[test]
fn overlapping_breadcrumbs_choose_deepest_directory() {
    let mut hit = empty_hit();
    hit.breadcrumbs = vec![path("/workspace/project/src"), path("/workspace")];
    assert_eq!(
        resolve_file_drop_target(&hit, None),
        Some(FileDropTarget::Directory(path("/workspace/project/src")))
    );
}

#[test]
fn breadcrumb_depth_counts_the_root() {
    let mut hit = empty_hit();
    hit.breadcrumbs = vec![path("/a"), path("b")];
    assert_eq!(resolve_file_drop_target(&hit, None), Some(FileDropTarget::Directory(path("/a"))));
    hit.breadcrumbs = vec![path("/a"), path("b/c")];
    assert_eq!(resolve_file_drop_target(&hit, None), Some(FileDropTarget::Directory(path("b/c"))));
}

#[test]
fn sidebar_trash_is_not_a_drop_target() {
    assert_eq!(sidebar_file_drop_target_for_directory(&trash_location_path()), None);
    assert_eq!(sidebar_file_drop_target_for_directory(&path("/m")), Some(FileDropTarget::Directory(path("/m"))));
}

#[test]
fn bookmark_row_edges_insert_around_the_row() {
    let mut hit = empty_hit();
    hit.sidebar_directories = vec![SidebarDirectoryHit {
        directory: path("/fav"),
        favorite_index: Some(2),
        row_target: SidebarBookmarkRowPointerTarget::InsertAfter,
    }];
    let source = path("/dragged");
    assert_eq!(
        resolve_file_drop_target(&hit, Some(&source)),
        Some(FileDropTarget::SidebarBookmarkSlot(SidebarBookmarkDropSlot::Insert { index: 3 }))
    );
    assert_eq!(resolve_file_drop_target(&hit, None), Some(FileDropTarget::Directory(path("/fav"))));
    let mut empty = empty_hit();
    empty.empty_sidebar_bookmarks = true;
    assert_eq!(
        resolve_file_drop_target(&empty, Some(&source)),
        Some(FileDropTarget::SidebarBookmarkSlot(SidebarBookmarkDropSlot::Insert { index: 0 }))
    );
}

#[test]
fn blocked_area_refuses_and_entries_beat_directory_areas() {
    let mut hit = empty_hit();
    hit.blocked = true;
    hit.directory_targets = vec![path("/outer")];
    assert_eq!(resolve_file_drop_target(&hit, None), None);
    hit.blocked = false;
    hit.entries = vec![EntryDropHit { directory: path("/inner"), path: path("/inner/x") }];
    assert_eq!(resolve_file_drop_target(&hit, None), Some(FileDropTarget::Directory(path("/inner"))));
}

#[test]
fn tab_hover_threshold_is_500ms() {
    assert!(!tab_file_drop_hover_delay_elapsed(1000, 1499));
    assert!(tab_file_drop_hover_delay_elapsed(1000, 1500));
    assert!(!tab_file_drop_hover_delay_elapsed(2000, 100));
}

#[test]
fn external_drop_session_follows_layout_and_prompts_on_drop() {
    let mut browser = FileBrowser::new(path("/w"));
    let identity = FileDropSessionIdentity::Wayland(7);
    let request = browser.begin_native_external_file_drop_session(identity);
    assert_eq!(request.generation, 1);
    let mut hit = empty_hit();
    hit.directory_targets = vec![path("/w")];
    match browser.accept_drop_layout(request, &hit, 10) {
        DropLayoutOutcome::Refreshed(_) => {}
        _ => panic!("expected a refresh"),
    }
    let session = browser.file_drop_session.as_ref().expect("session");
    assert_eq!(session.layout, FileDropLayoutState::Ready(request));
    assert_eq!(session.hovered_target, Some(FileDropTarget::Directory(path("/w"))));

    assert_eq!(browser.drop_native_file_drop_session(identity, true, &hit), FileDropAction::Nothing);
    assert_eq!(browser.file_drop_session.as_ref().map(|s| s.phase), Some(FileDropSessionPhase::Dropped));
    let action = browser.accept_external_file_drop_payload(
        identity,
        FileClipboardSelection { operation: FileClipboardOperation::Copy, paths: vec![path("/outside/report.txt")] },
    );
    assert_eq!(
        action,
        FileDropAction::PromptForDrop { directory: path("/w"), paths: vec![path("/outside/report.txt")] }
    );
    assert!(browser.file_drop_session.is_none());
}

#[test]
fn stale_layout_request_is_ignored() {
    let mut browser = FileBrowser::new(path("/w"));
    let identity = FileDropSessionIdentity::Wayland(1);
    let first = browser.begin_native_external_file_drop_session(identity);
    let second = browser.begin_native_external_file_drop_session(identity);
    assert_ne!(first.generation, second.generation);
    assert!(matches!(browser.accept_drop_layout(first, &empty_hit(), 0), DropLayoutOutcome::Ignored));
    assert!(browser.cancel_file_drop_session(identity));
    assert!(!browser.cancel_file_drop_session(identity));
}

#[test]
fn setting_the_same_target_twice_changes_nothing_the_second_time() {
    let mut browser = FileBrowser::new(path("/w"));
    browser.begin_native_external_file_drop_session(FileDropSessionIdentity::X11(3));
    assert!(browser.set_file_drop_target(Some(FileDropTarget::Directory(path("/w/a")))));
    let generation = browser.file_drop_session.as_ref().unwrap().hover_generation;
    assert!(!browser.set_file_drop_target(Some(FileDropTarget::Directory(path("/w/a")))));
    assert_eq!(browser.file_drop_session.as_ref().unwrap().hover_generation, generation);
    assert!(browser.set_file_drop_target(Some(FileDropTarget::SidebarBookmarkSlot(SidebarBookmarkDropSlot::Insert { index: 1 }))));
    assert_eq!(browser.sidebar_bookmark_drop_slot, Some(SidebarBookmarkDropSlot::Insert { index: 1 }));
}

fn native_drag(session: u64, sources: Vec<FsPath>) -> FileDragState {
    FileDragState {
        gesture_id: 3,
        source_pane_id: BrowserPaneId(0),
        source_tab_id: 0,
        pressed_path: sources[0].clone(),
        sources,
        bookmark_source: None,
        stationary_action: FileDragStationaryAction::SelectionOnly,
        phase: FileDragPhase::Dragging,
        native_dnd: FileDragNativeDndState::Requested(session),
        column_directories_snapshot: vec![],
        target: None,
        wayland_target: None,
    }
}

#[test]
fn wayland_drop_from_outside_starts_an_external_session() {
    let mut browser = FileBrowser::new(path("/w"));
    let request = browser.begin_wayland_file_drop_session(9, None).expect("session");
    assert_eq!(request.identity, FileDropSessionIdentity::Wayland(9));
    assert_eq!(request.generation, 1);
    let session = browser.file_drop_session.as_ref().expect("session");
    assert_eq!(session.origin, FileDropOrigin::External);
    assert_eq!(session.phase, FileDropSessionPhase::Hovering);
}

#[test]
fn wayland_drop_of_our_own_drag_carries_its_sources() {
    let mut browser = FileBrowser::new(path("/w"));
    browser.file_drag = Some(native_drag(5, vec![path("/w/a"), path("/w/b")]));

    assert!(browser.begin_wayland_file_drop_session(9, Some(6)).is_none());
    assert!(browser.file_drop_session.is_none());

    assert!(browser.begin_wayland_file_drop_session(9, Some(5)).is_some());
    match &browser.file_drop_session.as_ref().expect("session").origin {
        FileDropOrigin::Internal(snapshot) => {
            assert_eq!(snapshot.source_session_id, Some(5));
            assert_eq!(snapshot.sources, vec![path("/w/a"), path("/w/b")]);
        }
        FileDropOrigin::External => panic!("expected the window's own drag"),
    }
}

#[test]
fn wayland_payload_goes_only_to_the_session_of_its_drag() {
    let mut browser = FileBrowser::new(path("/w"));
    browser.file_drag = Some(native_drag(5, vec![path("/w/a")]));
    browser.begin_wayland_file_drop_session(9, Some(5));
    let payload = FileClipboardSelection { operation: FileClipboardOperation::Move, paths: vec![path("/w/a")] };

    assert!(matches!(browser.accept_wayland_file_drop(9, Some(6), payload.clone()), FileDropAction::Nothing));
    assert!(browser.file_drop_session.as_ref().unwrap().pending_payload.is_none());
    assert!(matches!(browser.accept_wayland_file_drop(8, Some(5), payload.clone()), FileDropAction::Nothing));
    assert!(matches!(browser.accept_wayland_file_drop(9, None, payload.clone()), FileDropAction::Nothing));
    assert!(browser.file_drop_session.as_ref().unwrap().pending_payload.is_none());

    assert!(matches!(browser.accept_wayland_file_drop(9, Some(5), payload.clone()), FileDropAction::Nothing));
    assert_eq!(browser.file_drop_session.as_ref().unwrap().pending_payload, Some(payload));
}

#[test]
fn failed_native_drop_ends_its_session_and_shows_why() {
    let mut browser = FileBrowser::new(path("/w"));
    browser.begin_wayland_file_drop_session(9, None);
    assert!(!browser.accept_native_file_drop_failure(FileDropSessionIdentity::Wayland(8), "other".to_owned()));
    assert!(browser.file_drop_session.is_some());
    assert!(browser.error.is_none());
    assert!(browser.accept_native_file_drop_failure(FileDropSessionIdentity::Wayland(9), "broken pipe".to_owned()));
    assert!(browser.file_drop_session.is_none());
    assert_eq!(browser.error.as_deref(), Some("broken pipe"));
}

#[test]
fn wayland_events_drive_the_drop_session() {
    let mut browser = FileBrowser::new(path("/w"));
    let hit = empty_hit();
    let outcome = browser.accept_wayland_target_event(
        WaylandDropEvent::Entered { session_id: 3, internal_source: None },
        &hit,
        0,
    );
    assert!(matches!(outcome, X11DropOutcome::Measure(request) if request.identity == FileDropSessionIdentity::Wayland(3)));
    assert!(matches!(
        browser.accept_wayland_target_event(WaylandDropEvent::Moved { session_id: 3 }, &hit, 10),
        X11DropOutcome::Refreshed(None)
    ));
    assert!(matches!(
        browser.accept_wayland_target_event(WaylandDropEvent::Moved { session_id: 4 }, &hit, 10),
        X11DropOutcome::Nothing
    ));
    assert!(matches!(
        browser.accept_wayland_target_event(WaylandDropEvent::Left { session_id: 3 }, &hit, 20),
        X11DropOutcome::Nothing
    ));
    assert!(browser.file_drop_session.is_none());

    browser.accept_wayland_target_event(WaylandDropEvent::Entered { session_id: 5, internal_source: None }, &hit, 30);
    let dropped = browser.accept_wayland_target_event(
        WaylandDropEvent::Dropped { session_id: 5, position_known: true },
        &hit,
        40,
    );
    assert!(matches!(dropped, X11DropOutcome::Dropped(FileDropAction::Nothing)));
    assert_eq!(browser.file_drop_session.as_ref().unwrap().phase, FileDropSessionPhase::Dropped);
}

#[test]
fn x11_payload_is_offered_for_copying() {
    let mut browser = FileBrowser::new(path("/w"));
    assert!(matches!(browser.accept_x11_file_drop(1, vec![path("/outside/a")]), FileDropAction::Nothing));
    browser.begin_native_external_file_drop_session(FileDropSessionIdentity::X11(1));
    browser.accept_x11_file_drop(1, vec![path("/outside/a")]);
    assert_eq!(
        browser.file_drop_session.as_ref().unwrap().pending_payload,
        Some(FileClipboardSelection { operation: FileClipboardOperation::Copy, paths: vec![path("/outside/a")] })
    );
}
