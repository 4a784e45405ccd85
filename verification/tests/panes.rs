use file_browser_core::browser::{BrowserPaneLayout, BrowserTab, FileBrowser, SplitAxis};
use file_browser_core::fs_path::FsPath;
use file_browser_core::model::{BrowserPaneId, BrowserViewMode};
use file_browser_core::panes::pane_from_tab;

fn path(text: &str) -> FsPath {
    FsPath::from_text(text)
}

#[test]
fn activating_split_panes_preserves_each_pane_view_mode() {
    let left_dir = path("/workspace/left");
    let right_dir = path("/workspace/right");
    let left_tab = BrowserTab::directory(0, left_dir.clone());
    let mut right_tab = BrowserTab::directory(1, right_dir.clone());
    right_tab.view_mode = BrowserViewMode::Columns;
    right_tab.selected_paths = Vec::new();

    let mut browser = FileBrowser::new(path("/home/user"));
    browser.current_dir = left_dir.clone();
    browser.tabs = vec![left_tab.clone()];
    browser.active_tab_id = left_tab.id;
    browser.view_mode = BrowserViewMode::Icons;
    browser.pane_layout = BrowserPaneLayout::Split {
        axis: SplitAxis::Horizontal,
        first: BrowserPaneId(0),
        second: BrowserPaneId(1),
        active: BrowserPaneId(0),
    };
    browser.panes = vec![pane_from_tab(BrowserPaneId(0), left_tab), pane_from_tab(BrowserPaneId(1), right_tab)];

    browser.activate_pane(BrowserPaneId(1));

    assert_eq!(browser.current_dir, right_dir);
    assert_eq!(browser.view_mode, BrowserViewMode::Columns);

    browser.view_mode = BrowserViewMode::Columns;
    browser.activate_pane(BrowserPaneId(0));

    assert_eq!(browser.current_dir, left_dir);
    assert_eq!(browser.view_mode, BrowserViewMode::Icons);
    assert!(browser
        .panes
        .iter()
        .find(|pane| pane.id == BrowserPaneId(1))
        .is_some_and(|pane| pane.view_mode == BrowserViewMode::Columns));
}

#[test]
fn activating_the_active_or_an_unknown_pane_changes_nothing() {
    let mut browser = FileBrowser::new(path("/home/user"));
    assert!(!browser.activate_pane(BrowserPaneId(0)));
    assert!(!browser.activate_pane(BrowserPaneId(7)));
    assert_eq!(browser.pane_layout, BrowserPaneLayout::Single { active: BrowserPaneId(0) });
}
