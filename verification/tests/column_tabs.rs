use file_browser_core::browser::BrowserTab;
use file_browser_core::fs_path::FsPath;
use file_browser_core::model::{BrowserViewMode, TabDropDestination};

fn path(text: &str) -> FsPath {
    FsPath::from_text(text)
}

#[test]
fn column_tab_drop_destination_follows_displayed_directory_only_for_columns() {
    let root = path("/workspace");
    let deepest = path("/workspace/project/src");
    let mut tab = BrowserTab::directory(1, root.clone());
    tab.deepest_open_column_directory = Some(deepest.clone());

    tab.view_mode = BrowserViewMode::Columns;
    assert_eq!(tab.file_drop_destination(), TabDropDestination::Directory(deepest));

    for mode in [BrowserViewMode::List, BrowserViewMode::Icons] {
        tab.view_mode = mode;
        assert_eq!(tab.file_drop_destination(), TabDropDestination::Directory(root.clone()));
    }

    assert_eq!(BrowserTab::trash(2).file_drop_destination(), TabDropDestination::Trash);
}

#[test]
fn column_tab_without_open_column_drops_into_its_directory() {
    let mut tab = BrowserTab::directory(3, path("/data"));
    tab.view_mode = BrowserViewMode::Columns;
    assert_eq!(tab.file_drop_destination(), TabDropDestination::Directory(path("/data")));
}
