use file_browser_core::browser::{BrowserTab, FileBrowser};
use file_browser_core::drop_target::FileDropHit;
use file_browser_core::drop_target::trash_location_path;
use file_browser_core::file_drop::{
    DropLayoutOutcome, FileClipboardOperation, FileClipboardSelection, FileDropAction, FileDropLayoutState,
    FileDropSessionIdentity, FileDropSessionPhase, TabHoverOutcome, X11DropEvent, X11DropOutcome,
};
use file_browser_core::fs_path::FsPath;
use file_browser_core::model::{BrowserViewMode, FileDropTarget, TabDropDestination, TabFileDropTarget};

fn path(text: &str) -> FsPath {
    FsPath::from_text(text)
}

fn hit_on(directory: &str) -> FileDropHit {
    FileDropHit {
        tabs: vec![],
        empty_sidebar_bookmarks: false,
        sidebar_directories: vec![],
        breadcrumbs: vec![],
        blocked: false,
        entries: vec![],
        directory_targets: vec![path(directory)],
    }
}

#[test]
fn drop_before_layout_dispatches_once_measured() {
    let mut browser = FileBrowser::new(path("/w"));
    let identity = FileDropSessionIdentity::Wayland(3);
    let request = browser.begin_native_external_file_drop_session(identity);
    let hit = hit_on("/w");
    assert_eq!(browser.drop_native_file_drop_session(identity, true, &hit), FileDropAction::Nothing);
    let selection = FileClipboardSelection { operation: FileClipboardOperation::Copy, paths: vec![path("/o/a.txt")] };
    assert_eq!(browser.accept_external_file_drop_payload(identity, selection), FileDropAction::Nothing);
    assert_eq!(browser.file_drop_session.as_ref().map(|s| s.phase), Some(FileDropSessionPhase::Dropped));
    match browser.accept_drop_layout(request, &hit, 0) {
        DropLayoutOutcome::Dispatched(action) => assert_eq!(
            action,
            FileDropAction::PromptForDrop { directory: path("/w"), paths: vec![path("/o/a.txt")] }
        ),
        other => panic!("expected the drop, got {:?}", other),
    }
    assert!(browser.file_drop_session.is_none());
}

#[test]
fn entering_another_tab_times_a_hover_once() {
    let mut browser = FileBrowser::new(path("/w"));
    browser.tabs.push(BrowserTab::directory(1, path("/x")));
    let request = browser.begin_native_external_file_drop_session(FileDropSessionIdentity::Wayland(1));
    let target = TabFileDropTarget {
        pane_id: browser.active_pane_id(),
        tab_id: 1,
        destination: TabDropDestination::Directory(path("/x")),
    };
    let hover = browser.set_file_drop_tab_target(target.clone(), 100).expect("a hover");
    assert_eq!(hover.target, target);
    assert_eq!(hover.started_at, 100);
    assert_eq!(hover.hover_generation, 1);
    assert_eq!(hover.layout_generation, request.generation);
    let session = browser.file_drop_session.as_ref().expect("session");
    assert_eq!(session.tab_hover.as_ref(), Some(&hover));
    assert_eq!(session.hovered_target, Some(FileDropTarget::Tab(target.clone())));

    assert!(browser.set_file_drop_tab_target(target, 200).is_none());
    assert_eq!(browser.file_drop_session.as_ref().map(|s| s.hover_generation), Some(1));
}

#[test]
fn entering_the_current_tab_times_no_hover() {
    let mut browser = FileBrowser::new(path("/w"));
    browser.begin_native_external_file_drop_session(FileDropSessionIdentity::Wayland(1));
    let target = TabFileDropTarget {
        pane_id: browser.active_pane_id(),
        tab_id: browser.active_tab_id,
        destination: TabDropDestination::Directory(path("/w")),
    };
    assert!(browser.set_file_drop_tab_target(target.clone(), 5).is_none());
    let session = browser.file_drop_session.as_ref().expect("session");
    assert_eq!(session.hovered_target, Some(FileDropTarget::Tab(target)));
    assert!(session.tab_hover.is_none());
}

#[test]
fn fresh_browser_column_tab_takes_drops_at_its_displayed_directory() {
    let mut browser = FileBrowser::new(path("/home/user"));
    let mut tab = BrowserTab::directory(browser.active_tab_id + 1, path("/workspace"));
    tab.deepest_open_column_directory = Some(path("/workspace/project/src"));
    tab.view_mode = BrowserViewMode::Columns;
    let tab_id = tab.id;
    browser.tabs.push(tab);
    let target = TabFileDropTarget {
        pane_id: browser.active_pane_id(),
        tab_id,
        destination: TabDropDestination::Directory(path("/workspace/project/src")),
    };
    assert!(browser.tab_file_drop_target_is_selectable(&target));
    browser.tabs[1].view_mode = BrowserViewMode::List;
    assert!(!browser.tab_file_drop_target_is_selectable(&target));
}

#[test]
fn a_lasting_tab_hover_selects_the_tab_and_measures_afresh() {
    let mut browser = FileBrowser::new(path("/w"));
    browser.tabs.push(BrowserTab::directory(1, path("/x")));
    let identity = FileDropSessionIdentity::Wayland(1);
    let request = browser.begin_native_external_file_drop_session(identity);
    let pane_id = browser.active_pane_id();
    let target = TabFileDropTarget { pane_id, tab_id: 1, destination: TabDropDestination::Directory(path("/x")) };
    let hover = browser.set_file_drop_tab_target(target, 100).expect("a hover");
    assert_eq!(browser.accept_tab_hover_elapsed(&hover, 599), TabHoverOutcome::Ignored);
    match browser.accept_tab_hover_elapsed(&hover, 600) {
        TabHoverOutcome::SelectTab { pane_id: selected_pane, tab_id, measure: Some(measure) } => {
            assert_eq!(selected_pane, pane_id);
            assert_eq!(tab_id, 1);
            assert_eq!(measure.identity, identity);
            assert_eq!(measure.tab_id, 1);
            assert_eq!(measure.generation, request.generation + 1);
        }
        other => panic!("expected the tab to be selected, got {:?}", other),
    }
    let session = browser.file_drop_session.as_ref().expect("session");
    assert!(session.hovered_target.is_none());
    assert!(session.tab_hover.is_none());
    assert_eq!(session.hover_generation, 2);
}

#[test]
fn a_scale_change_remeasures_a_hovering_x11_drop() {
    let mut browser = FileBrowser::new(path("/w"));
    let hit = hit_on("/w");
    let request = match browser.accept_x11_target_event(X11DropEvent::Entered { session_id: 9, position_known: true }, &hit, 0) {
        X11DropOutcome::Measure(request) => request,
        other => panic!("expected a measurement, got {:?}", other),
    };
    assert!(matches!(browser.accept_drop_layout(request, &hit, 0), DropLayoutOutcome::Refreshed(_)));
    assert_eq!(
        browser.file_drop_session.as_ref().and_then(|s| s.hovered_target.clone()),
        Some(FileDropTarget::Directory(path("/w")))
    );
    let fresh = browser.invalidate_x11_file_drop_for_scale_change().expect("a fresh measurement");
    assert_eq!(fresh.identity, request.identity);
    assert_eq!(fresh.generation, request.generation + 1);
    let session = browser.file_drop_session.as_ref().expect("session");
    assert!(!session.has_position);
    assert!(session.hovered_target.is_none());
    assert_eq!(session.layout, FileDropLayoutState::Pending(fresh));
    assert!(matches!(browser.accept_drop_layout(request, &hit, 0), DropLayoutOutcome::Ignored));
}

#[test]
fn drag_targets_move_the_hover_generation() {
    let mut browser = FileBrowser::new(path("/w"));
    browser.begin_native_external_file_drop_session(FileDropSessionIdentity::Wayland(2));
    assert!(browser.set_file_drag_target(path("/w/d")));
    assert!(!browser.set_file_drag_target(path("/w/d")));
    assert_eq!(browser.file_drop_session.as_ref().map(|s| s.hover_generation), Some(1));
    browser.clear_file_drag_target_if_matching(&path("/w/other"));
    assert_eq!(browser.file_drop_session.as_ref().map(|s| s.hover_generation), Some(1));
    browser.clear_file_drag_target_if_matching(&path("/w/d"));
    let session = browser.file_drop_session.as_ref().expect("session");
    assert!(session.hovered_target.is_none());
    assert_eq!(session.hover_generation, 2);

    browser.set_file_drop_target(Some(FileDropTarget::Trash));
    browser.clear_file_drag_target_if_matching(&trash_location_path());
    let session = browser.file_drop_session.as_ref().expect("session");
    assert!(session.hovered_target.is_none());
    assert_eq!(session.hover_generation, 4);
    assert!(!browser.clear_file_drag_target());
}
