use file_browser_core::drag::{resolve_file_drag_target, safe_file_drop_target, display_directory_name, file_drag_transfer_label};
use file_browser_core::fs_path::FsPath;
use file_browser_core::model::{FileDragDropIntent, FileDropTarget};

fn path(text: &str) -> FsPath {
    FsPath::from_text(text)
}

#[test]
fn unsafe_directory_targets_are_rejected_for_every_source_relationship() {
    let file_source = path("/workspace/report.txt");
    let directory_source = path("/workspace/project");

    for (sources, target) in [
        (vec![file_source.clone()], path("/workspace")),
        (vec![directory_source.clone()], directory_source.clone()),
        (vec![directory_source.clone()], path("/workspace/project/nested")),
    ] {
        assert!(safe_file_drop_target(&sources, Some(FileDropTarget::Directory(target))).is_none());
    }
}

#[test]
fn expanded_subdirectory_source_can_move_back_to_tab_root() {
    let source = path("/workspace/root/expanded/report.txt");
    let root = path("/workspace/root");

    assert_eq!(
        safe_file_drop_target(std::slice::from_ref(&source), Some(FileDropTarget::Directory(root.clone()))),
        Some(FileDropTarget::Directory(root))
    );
}

#[test]
fn drag_target_falls_back_from_source_parent_to_pane_directory() {
    let source = path("/right/file.txt");
    let source_parent = path("/right");
    let fallback = path("/left");

    let target = resolve_file_drag_target(
        &[source],
        None,
        Some(FileDropTarget::Directory(source_parent)),
        Some(fallback.clone()),
    );

    assert!(matches!(target, Some(FileDropTarget::Directory(p)) if p == fallback));
}

#[test]
fn drag_target_keeps_hovered_directory_in_target_pane() {
    let source = path("/right/file.txt");
    let hovered = path("/left/folder");
    let fallback = path("/left");

    let target = resolve_file_drag_target(
        &[source],
        None,
        Some(FileDropTarget::Directory(hovered.clone())),
        Some(fallback),
    );

    assert!(matches!(target, Some(FileDropTarget::Directory(p)) if p == hovered));
}

#[test]
fn drag_target_prefers_release_column_over_stale_hover_target() {
    let source = path("/right/file.txt");
    let stale_hover_target = path("/right");
    let release_column = path("/left/actual-column");
    let fallback = path("/left");

    let target = resolve_file_drag_target(
        &[source],
        Some(release_column.clone()),
        Some(FileDropTarget::Directory(stale_hover_target)),
        Some(fallback),
    );

    assert!(matches!(target, Some(FileDropTarget::Directory(p)) if p == release_column));
}

#[test]
fn drag_target_uses_pane_directory_when_hover_target_missing() {
    let source = path("/right/file.txt");
    let fallback = path("/left");

    let target = resolve_file_drag_target(&[source], None, None, Some(fallback.clone()));

    assert!(matches!(target, Some(FileDropTarget::Directory(p)) if p == fallback));
}

#[test]
fn safe_target_is_stable_when_applied_twice() {
    let sources = vec![path("/workspace/project")];
    for target in [
        Some(FileDropTarget::Directory(path("/workspace/project/deeper"))),
        Some(FileDropTarget::Directory(path("/elsewhere"))),
        Some(FileDropTarget::Trash),
        None,
    ] {
        let once = safe_file_drop_target(&sources, target);
        let twice = safe_file_drop_target(&sources, once.clone());
        assert_eq!(once, twice);
    }
}

#[test]
fn release_directory_wins_even_without_hover_or_fallback() {
    let target = resolve_file_drag_target(&[path("/a/b")], Some(path("/a")), None, None);
    assert_eq!(target, Some(FileDropTarget::Directory(path("/a"))));
}

#[test]
fn trash_target_is_kept_when_hovered() {
    let target = resolve_file_drag_target(&[path("/a/b")], None, Some(FileDropTarget::Trash), Some(path("/c")));
    assert_eq!(target, Some(FileDropTarget::Trash));
}

#[test]
fn transfer_labels_name_the_target_directory() {
    assert_eq!(file_drag_transfer_label(FileDragDropIntent::Copy, &path("/home/user/Music")), "Copy to Music");
    assert_eq!(file_drag_transfer_label(FileDragDropIntent::CreateLink, &path("/x/y")), "Create link to y");
    assert_eq!(file_drag_transfer_label(FileDragDropIntent::Move, &path("/")), "Move to /");
    assert_eq!(display_directory_name(&path("/srv/data")), "data");
}

#[test]
fn path_text_round_trips_through_parsing() {
    assert_eq!(path("/a//b/./c/").path_text(), "/a/b/c");
    assert_eq!(path("/").path_text(), "/");
    assert_eq!(path("/a/b").path_text(), "/a/b");
    assert_eq!(path("rel/x").path_text(), "rel/x");
}
