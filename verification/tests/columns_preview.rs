use file_browser_core::browser::{DirectoryEntry, ExpandedDirectory, ExpandedDirectoryStatus, FileBrowser};
use file_browser_core::columns::ColumnOpening;
use file_browser_core::fs_path::FsPath;
use file_browser_core::model::FileKind;
use file_browser_core::preview::{preview_route, PreviewFormats, PreviewRoute};

fn path(text: &str) -> FsPath {
    FsPath::from_text(text)
}

fn entry(p: &str, kind: FileKind) -> DirectoryEntry {
    DirectoryEntry { path: path(p), kind }
}

fn browser() -> FileBrowser {
    let mut browser = FileBrowser::new(path("/w"));
    browser.entries = vec![
        entry("/w/d", FileKind::Directory),
        entry("/w/e", FileKind::Directory),
        entry("/w/f", FileKind::File),
    ];
    browser.expanded_directories = vec![ExpandedDirectory {
        path: path("/w/d"),
        entries: vec![entry("/w/d/x", FileKind::File)],
        status: ExpandedDirectoryStatus::Loaded,
        is_expanded: false,
    }];
    browser
}

#[test]
fn opening_a_known_column_expands_it_again() {
    let mut browser = browser();
    assert_eq!(browser.open_column_for_directory(path("/w/d")), ColumnOpening::Reopened);
    assert_eq!(browser.deepest_open_column_directory, Some(path("/w/d")));
    assert_eq!(browser.expanded_directories.len(), 1);
    assert!(browser.expanded_directories[0].is_expanded);
    assert_eq!(browser.expanded_directories[0].status, ExpandedDirectoryStatus::Loaded);
    assert_eq!(browser.expanded_directories[0].entries.len(), 1);
    assert_eq!(browser.tabs[0].deepest_open_column_directory, Some(path("/w/d")));
}

#[test]
fn opening_a_new_column_adds_a_loading_node() {
    let mut browser = browser();
    assert_eq!(browser.open_column_for_directory(path("/w/e")), ColumnOpening::Load);
    assert_eq!(browser.deepest_open_column_directory, Some(path("/w/e")));
    assert_eq!(browser.expanded_directories.len(), 2);
    let node = &browser.expanded_directories[1];
    assert_eq!(node.path, path("/w/e"));
    assert!(node.entries.is_empty());
    assert_eq!(node.status, ExpandedDirectoryStatus::Loading);
    assert!(node.is_expanded);
}

#[test]
fn opening_a_column_twice_lists_it_once() {
    let mut browser = browser();
    assert_eq!(browser.open_column_for_directory(path("/w/e")), ColumnOpening::Load);
    assert_eq!(browser.open_column_for_directory(path("/w/e")), ColumnOpening::Reopened);
    assert_eq!(browser.open_column_for_directory(path("/w/d")), ColumnOpening::Reopened);
    assert_eq!(browser.expanded_directories.len(), 2);
    assert_eq!(browser.expanded_directories.iter().filter(|node| node.path == path("/w/e")).count(), 1);
}

#[test]
fn files_unknown_paths_and_the_trash_open_no_column() {
    let mut browser = browser();
    let before = browser.expanded_directories.clone();
    assert_eq!(browser.open_column_for_directory(path("/w/f")), ColumnOpening::Ignored);
    assert_eq!(browser.open_column_for_directory(path("/elsewhere")), ColumnOpening::Ignored);
    assert_eq!(browser.expanded_directories, before);
    assert_eq!(browser.deepest_open_column_directory, None);
    browser.is_trash_view = true;
    assert_eq!(browser.open_column_for_directory(path("/w/d")), ColumnOpening::Ignored);
    assert_eq!(browser.deepest_open_column_directory, None);
}

fn formats() -> PreviewFormats {
    PreviewFormats { document: false, audio: false, video: false, animated_image: false, thumbnail_image: false }
}

#[test]
fn preview_routes_follow_the_format_order() {
    let all = PreviewFormats { document: true, audio: true, video: true, animated_image: true, thumbnail_image: true };
    assert_eq!(preview_route(FileKind::File, all), PreviewRoute::Document);
    assert_eq!(preview_route(FileKind::File, PreviewFormats { document: false, ..all }), PreviewRoute::AnimatedImage);
    assert_eq!(
        preview_route(FileKind::File, PreviewFormats { thumbnail_image: true, ..formats() }),
        PreviewRoute::Image
    );
    assert_eq!(
        preview_route(FileKind::File, PreviewFormats { thumbnail_image: true, video: true, ..formats() }),
        PreviewRoute::Video
    );
    assert_eq!(preview_route(FileKind::File, PreviewFormats { audio: true, ..formats() }), PreviewRoute::Audio);
    assert_eq!(preview_route(FileKind::File, formats()), PreviewRoute::Regular);
    assert_eq!(preview_route(FileKind::Directory, all), PreviewRoute::Regular);
}

#[test]
fn opening_a_preview_loads_it_and_clears_the_error() {
    let mut browser = browser();
    browser.error = Some("old".to_owned());
    let route = browser.open_preview_for_resolved_path(path("/w/f"), FileKind::File, formats());
    assert_eq!(route, PreviewRoute::Regular);
    assert_eq!(browser.preview, Some(path("/w/f")));
    assert_eq!(browser.error, None);

    let mut other = self::browser();
    other.error = Some("kept".to_owned());
    let route = other.open_preview_for_resolved_path(
        path("/w/f"),
        FileKind::File,
        PreviewFormats { document: true, ..formats() },
    );
    assert_eq!(route, PreviewRoute::Document);
    assert_eq!(other.preview, None);
    assert_eq!(other.error.as_deref(), Some("kept"));
}
