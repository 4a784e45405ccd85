use file_browser_core::breadcrumb_drop::{BreadcrumbBoundsOutcome, WaylandDropOrigin, WaylandDropPlacement, WaylandFileDrop};
use file_browser_core::browser::FileBrowser;
use file_browser_core::drag::{FileDragNativeDndState, FileDragPhase, FileDragStationaryAction, FileDragState};
use file_browser_core::model::BrowserPaneId;
use file_browser_core::file_drop::{FileClipboardOperation, FileClipboardSelection};
use file_browser_core::fs_path::FsPath;

fn path(text: &str) -> FsPath {
    FsPath::from_text(text)
}

fn wayland_file_drop(operation: FileClipboardOperation, paths: Vec<FsPath>, origin: WaylandDropOrigin) -> WaylandFileDrop {
    WaylandFileDrop { selection: FileClipboardSelection { operation, paths }, origin, position_bits: None }
}

#[test]
fn stale_breadcrumb_measurement_does_not_consume_pending_wayland_drop() {
    let source = path("/outside/report.txt");
    let mut browser = FileBrowser::new(path("/workspace"));

    let drop = wayland_file_drop(FileClipboardOperation::Copy, vec![source.clone()], WaylandDropOrigin::External);
    assert!(browser.accept_wayland_file_drop_result(Ok(drop)).is_some());
    let current_generation = browser.breadcrumb_drop_target_measurement_generation;

    assert_eq!(
        browser.accept_breadcrumb_drop_target_bounds(current_generation.wrapping_sub(1)),
        BreadcrumbBoundsOutcome::Stale
    );
    assert!(browser.pending_wayland_file_drop.is_some());
    assert!(browser.file_drop_prompt.is_none());

    let released = match browser.accept_breadcrumb_drop_target_bounds(current_generation) {
        BreadcrumbBoundsOutcome::MeasuredWithDrop(drop) => drop,
        other => panic!("expected the pending drop, got {:?}", other),
    };
    assert!(browser.pending_wayland_file_drop.is_none());
    assert!(browser.accept_external_wayland_file_drop(None, released.position_bits.is_some(), false, released.selection.paths));
    assert!(matches!(&browser.file_drop_prompt, Some(prompt) if prompt.paths == vec![source.clone()]));
}

#[test]
fn measurement_generation_wraps_and_starts_with_the_drop() {
    let mut browser = FileBrowser::new(path("/workspace"));
    browser.breadcrumb_drop_target_measurement_generation = u64::MAX;
    let drop = wayland_file_drop(FileClipboardOperation::Move, vec![path("/a")], WaylandDropOrigin::Internal);
    assert_eq!(browser.measure_wayland_file_drop_target(drop.clone()), 0);
    assert_eq!(browser.breadcrumb_drop_target_measurement_generation, 0);
    let pending = browser.pending_wayland_file_drop.clone().expect("pending drop");
    assert_eq!(pending.measurement_generation, 0);
    assert_eq!(pending.drop, drop);
}

#[test]
fn failed_wayland_drop_clears_the_pending_drop_and_shows_the_error() {
    let mut browser = FileBrowser::new(path("/workspace"));
    let drop = wayland_file_drop(FileClipboardOperation::Copy, vec![path("/a")], WaylandDropOrigin::External);
    assert_eq!(browser.accept_wayland_file_drop_result(Ok(drop)), Some(1));
    assert_eq!(browser.accept_wayland_file_drop_result(Err("no data".to_string())), None);
    assert!(browser.pending_wayland_file_drop.is_none());
    assert_eq!(browser.breadcrumb_drop_target_measurement_generation, 2);
    assert_eq!(browser.error.as_deref(), Some("no data"));
    assert_eq!(browser.accept_breadcrumb_drop_target_bounds(1), BreadcrumbBoundsOutcome::Stale);
    assert_eq!(browser.accept_breadcrumb_drop_target_bounds(2), BreadcrumbBoundsOutcome::Measured);
}

#[test]
fn breadcrumb_measurement_waits_while_a_drop_is_pending() {
    let mut browser = FileBrowser::new(path("/workspace"));
    assert_eq!(browser.request_breadcrumb_drop_target_bounds_measurement(), Some(1));
    let drop = wayland_file_drop(FileClipboardOperation::Copy, vec![path("/a")], WaylandDropOrigin::External);
    assert_eq!(browser.measure_wayland_file_drop_target(drop), 2);
    assert_eq!(browser.request_breadcrumb_drop_target_bounds_measurement(), None);
    assert_eq!(browser.breadcrumb_drop_target_measurement_generation, 2);
}

#[test]
fn measured_external_drop_goes_to_the_directory_under_the_point() {
    let mut browser = FileBrowser::new(path("/workspace"));
    let mut drop = wayland_file_drop(FileClipboardOperation::Copy, vec![path("/outside/report.txt")], WaylandDropOrigin::External);
    drop.position_bits = Some((0, 0));
    assert_eq!(
        browser.place_measured_wayland_file_drop(drop, Some(path("/workspace/project")), true, true),
        WaylandDropPlacement::Prompted(true)
    );
    let prompt = browser.file_drop_prompt.as_ref().expect("prompt");
    assert_eq!(prompt.paste_directory, path("/workspace/project"));
}

#[test]
fn measured_external_drop_over_a_pane_without_directory_goes_nowhere() {
    let mut browser = FileBrowser::new(path("/workspace"));
    let mut drop = wayland_file_drop(FileClipboardOperation::Copy, vec![path("/o/a")], WaylandDropOrigin::External);
    drop.position_bits = Some((0, 0));
    assert_eq!(browser.place_measured_wayland_file_drop(drop, None, true, true), WaylandDropPlacement::Prompted(false));
    assert!(browser.file_drop_prompt.is_none());
}

#[test]
fn measured_internal_drop_needs_the_drag_under_way() {
    let mut browser = FileBrowser::new(path("/workspace"));
    let drop = wayland_file_drop(FileClipboardOperation::Move, vec![path("/workspace/a")], WaylandDropOrigin::Internal);
    assert_eq!(
        browser.place_measured_wayland_file_drop(drop, Some(path("/workspace/d")), true, true),
        WaylandDropPlacement::Ignored
    );
}

#[test]
fn measured_internal_drop_over_no_directory_clears_the_target() {
    let mut browser = FileBrowser::new(path("/workspace"));
    browser.file_drag = Some(FileDragState {
        gesture_id: 1,
        source_pane_id: BrowserPaneId(0),
        source_tab_id: 0,
        pressed_path: path("/workspace/a"),
        sources: vec![path("/workspace/a")],
        bookmark_source: None,
        stationary_action: FileDragStationaryAction::SelectionOnly,
        phase: FileDragPhase::Dragging,
        native_dnd: FileDragNativeDndState::NotRequested,
        column_directories_snapshot: vec![],
        target: None,
        wayland_target: None,
    });
    assert!(browser.begin_iced_file_drop_session().is_some());
    assert!(browser.set_file_drag_target(path("/workspace/d")));
    let mut drop = wayland_file_drop(FileClipboardOperation::Move, vec![path("/workspace/a")], WaylandDropOrigin::Internal);
    drop.position_bits = Some((1, 1));
    assert_eq!(browser.place_measured_wayland_file_drop(drop.clone(), None, true, true), WaylandDropPlacement::FinishDrag(None));
    assert!(browser.file_drop_session.as_ref().expect("session").hovered_target.is_none());

    assert!(browser.set_file_drag_target(path("/workspace/d")));
    assert_eq!(
        browser.place_measured_wayland_file_drop(drop, Some(path("/workspace/e")), true, true),
        WaylandDropPlacement::FinishDrag(Some(path("/workspace/e")))
    );
    assert!(browser.file_drop_session.as_ref().expect("session").hovered_target.is_some());
}
