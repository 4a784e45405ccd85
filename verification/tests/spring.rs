use file_browser_core::browser::{ContextMenuState, DirectoryEntry, FileBrowser};
use file_browser_core::drag::{FileDragNativeDndState, FileDragPhase, FileDragStationaryAction, FileDragState};
use file_browser_core::fs_path::FsPath;
use file_browser_core::model::{BrowserPaneId, BrowserViewMode, FileKind};
use file_browser_core::spring::{FileDragSpringSource, SpringTickAction};

fn path(text: &str) -> FsPath {
    FsPath::from_text(text)
}

fn dragging(sources: Vec<FsPath>) -> FileDragState {
    FileDragState {
        gesture_id: 1,
        source_pane_id: BrowserPaneId(0),
        source_tab_id: 0,
        pressed_path: sources[0].clone(),
        sources,
        bookmark_source: None,
        stationary_action: FileDragStationaryAction::SelectionOnly,
        phase: FileDragPhase::Dragging,
        native_dnd: FileDragNativeDndState::NotRequested,
        column_directories_snapshot: vec![],
        target: None,
        wayland_target: None,
    }
}

fn spring_browser(source: &str) -> FileBrowser {
    let mut browser = FileBrowser::new(path("/workspace"));
    browser.entries = vec![
        DirectoryEntry { path: path("/workspace/dir_a"), kind: FileKind::Directory },
        DirectoryEntry { path: path("/workspace/dir_b"), kind: FileKind::Directory },
        DirectoryEntry { path: path("/workspace/file.txt"), kind: FileKind::File },
    ];
    browser.file_drag = Some(dragging(vec![path(source)]));
    browser
}

#[test]
fn same_directory_hover_keeps_timer_other_directory_restarts_it() {
    let mut browser = spring_browser("/workspace/file.txt");
    let pane = BrowserPaneId(0);
    browser.note_file_drag_spring_hover(Some((pane, path("/workspace/dir_a"), FileDragSpringSource::Entry)), 100);
    browser.note_file_drag_spring_hover(Some((pane, path("/workspace/dir_a"), FileDragSpringSource::Entry)), 250);
    assert_eq!(browser.file_drag_spring_hover.as_ref().unwrap().since, 100);
    browser.note_file_drag_spring_hover(Some((pane, path("/workspace/dir_b"), FileDragSpringSource::Entry)), 300);
    let moved = browser.file_drag_spring_hover.as_ref().unwrap();
    assert_eq!(moved.directory, path("/workspace/dir_b"));
    assert_eq!(moved.since, 300);
    browser.note_file_drag_spring_hover(None, 310);
    assert!(browser.file_drag_spring_hover.is_none());
}

#[test]
fn directory_over_itself_does_not_spring_unless_copied() {
    let mut browser = spring_browser("/workspace/dir_a");
    let pane = BrowserPaneId(0);
    browser.note_file_drag_spring_hover(Some((pane, path("/workspace/dir_a/inner"), FileDragSpringSource::Entry)), 0);
    assert!(browser.file_drag_spring_hover.is_none());
    browser.keyboard_modifiers.control = true;
    browser.note_file_drag_spring_hover(Some((pane, path("/workspace/dir_a/inner"), FileDragSpringSource::Entry)), 0);
    assert!(browser.file_drag_spring_hover.is_some());
}

#[test]
fn breadcrumb_of_the_current_directory_does_not_spring() {
    let mut browser = spring_browser("/workspace/file.txt");
    browser.note_file_drag_spring_hover(
        Some((BrowserPaneId(0), path("/workspace"), FileDragSpringSource::Breadcrumb)),
        0,
    );
    assert!(browser.file_drag_spring_hover.is_none());
}

#[test]
fn hover_opens_after_the_delay_and_fires_once() {
    let mut browser = spring_browser("/workspace/file.txt");
    browser.note_file_drag_spring_hover(
        Some((BrowserPaneId(0), path("/workspace/dir_a"), FileDragSpringSource::Entry)),
        1_000,
    );
    assert_eq!(browser.handle_file_drag_spring_open_tick(1_499), SpringTickAction::Wait);
    assert_eq!(browser.handle_file_drag_spring_open_tick(1_500), SpringTickAction::Activate(path("/workspace/dir_a")));
    assert!(browser.file_drag_spring_hover.as_ref().unwrap().fired);
    assert_eq!(browser.handle_file_drag_spring_open_tick(2_000), SpringTickAction::Wait);
}

#[test]
fn column_view_opens_the_next_column_and_extends_the_chain() {
    let mut browser = spring_browser("/workspace/file.txt");
    browser.view_mode = BrowserViewMode::Columns;
    if let Some(drag) = &mut browser.file_drag {
        drag.column_directories_snapshot = vec![path("/workspace")];
    }
    browser.note_file_drag_spring_hover(
        Some((BrowserPaneId(0), path("/workspace/dir_a"), FileDragSpringSource::Entry)),
        0,
    );
    assert_eq!(browser.handle_file_drag_spring_open_tick(600), SpringTickAction::OpenColumn(path("/workspace/dir_a")));
    assert_eq!(browser.deepest_open_column_directory, Some(path("/workspace/dir_a")));
    assert_eq!(
        browser.file_drag.as_ref().unwrap().column_directories_snapshot,
        vec![path("/workspace"), path("/workspace/dir_a")]
    );
}

#[test]
fn candidate_dies_with_the_drag() {
    let mut browser = spring_browser("/workspace/file.txt");
    browser.note_file_drag_spring_hover(
        Some((BrowserPaneId(0), path("/workspace/dir_a"), FileDragSpringSource::Entry)),
        0,
    );
    browser.file_drag = None;
    assert_eq!(browser.handle_file_drag_spring_open_tick(10), SpringTickAction::Wait);
    assert!(browser.file_drag_spring_hover.is_none());
}

#[test]
fn paste_goes_to_menu_then_pointer_then_current_directory() {
    let mut browser = FileBrowser::new(path("/cur"));
    assert_eq!(browser.paste_target_directory(), path("/cur"));
    browser.cursor_paste_directory = Some(path("/hover"));
    assert_eq!(browser.paste_target_directory(), path("/hover"));
    browser.context_menu = Some(ContextMenuState { paste_directory: Some(path("/menu")) });
    assert_eq!(browser.paste_target_directory(), path("/menu"));
    assert!(!browser.file_browser_content_shortcuts_enabled());
    browser.context_menu = None;
    assert!(browser.file_browser_content_shortcuts_enabled());
    browser.settings_window = Some(browser.focused_window);
    assert!(!browser.file_browser_content_shortcuts_enabled());
}

#[test]
fn breadcrumb_generations_wrap() {
    let mut browser = FileBrowser::new(path("/"));
    browser.breadcrumb_drop_target_measurement_generation = u64::MAX;
    assert_eq!(browser.next_breadcrumb_drop_target_measurement_generation(), 0);
    assert_eq!(browser.next_breadcrumb_drop_target_measurement_generation(), 1);
}

#[test]
fn candidate_dies_with_drag_session() {
    let mut browser = FileBrowser::new(path("/workspace"));
    browser.entries = vec![
        DirectoryEntry { path: path("/workspace/dir_a"), kind: FileKind::Directory },
        DirectoryEntry { path: path("/workspace/dir_b"), kind: FileKind::Directory },
        DirectoryEntry { path: path("/workspace/file.txt"), kind: FileKind::File },
    ];
    let file = path("/workspace/file.txt");
    browser.start_file_drag(file.clone(), vec![file], FileDragStationaryAction::SelectionOnly, vec![]);
    browser.update_file_drag(true, false);
    browser.begin_iced_file_drop_session();

    browser.note_file_drag_spring_hover(
        Some((BrowserPaneId(0), path("/workspace/dir_a"), FileDragSpringSource::Entry)),
        0,
    );
    assert!(browser.file_drag_spring_hover.is_some());

    browser.cancel_file_drag_interaction();
    browser.handle_file_drag_spring_open_tick(1);
    assert!(browser.file_drag_spring_hover.is_none());
}
