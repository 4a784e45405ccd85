use file_browser_core::browser::FileBrowser;
use file_browser_core::drop_areas::{PaneDirectoryHit, PaneEntryHit, PaneFileDropHit};
use file_browser_core::drop_target::EntryDropHit;
use file_browser_core::fs_path::FsPath;
use file_browser_core::model::BrowserPaneId;

fn path(text: &str) -> FsPath {
    FsPath::from_text(text)
}

fn measured(pane: BrowserPaneId) -> PaneFileDropHit {
    PaneFileDropHit {
        tabs: vec![],
        empty_sidebar_bookmarks: false,
        sidebar_directories: vec![],
        breadcrumbs: vec![PaneDirectoryHit { pane_id: pane, directory: path("/w") }],
        blocked: vec![pane],
        entries: vec![
            PaneEntryHit { pane_id: pane, path: path("/w/d"), directory: Some(path("/w/d")) },
            PaneEntryHit { pane_id: pane, path: path("/w/f"), directory: None },
        ],
        directory_targets: vec![PaneDirectoryHit { pane_id: pane, directory: path("/w") }],
    }
}

#[test]
fn drop_areas_count_only_in_panes_that_take_drops() {
    let browser = FileBrowser::new(path("/w"));
    let hit = browser.freeze_file_drop_hit(measured(browser.active_pane_id()));
    assert_eq!(hit.breadcrumbs, vec![path("/w")]);
    assert!(hit.blocked);
    assert_eq!(hit.entries, vec![EntryDropHit { directory: path("/w/d"), path: path("/w/d") }]);
    assert_eq!(hit.directory_targets, vec![path("/w")]);

    let unknown = browser.freeze_file_drop_hit(measured(BrowserPaneId(9)));
    assert!(unknown.breadcrumbs.is_empty());
    assert!(!unknown.blocked);
    assert!(unknown.entries.is_empty());
    assert!(unknown.directory_targets.is_empty());
}

#[test]
fn drop_areas_of_a_pane_showing_the_trash_do_not_count() {
    let mut browser = FileBrowser::new(path("/w"));
    browser.is_trash_view = true;
    let hit = browser.freeze_file_drop_hit(measured(browser.active_pane_id()));
    assert!(hit.breadcrumbs.is_empty());
    assert!(!hit.blocked);
    assert!(hit.entries.is_empty());
}
