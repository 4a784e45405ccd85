use file_browser_core::browser::{BrowserPaneLayout, BrowserTab, FileBrowser, SplitAxis};
use file_browser_core::fs_path::FsPath;
use file_browser_core::model::BrowserPaneId;
use file_browser_core::panes::path_input_for_tab;
use file_browser_core::tabs::{SplitRegion, TabBarReveal, TabDragMode, TabDragState};

fn path(text: &str) -> FsPath {
    FsPath::from_text(text)
}

fn browser() -> FileBrowser {
    FileBrowser::new(path("/home/user"))
}

fn assert_split_directory(browser: &FileBrowser, directory: FsPath, expected_axis: SplitAxis) {
    let BrowserPaneLayout::Split { axis, first, second, active } = browser.pane_layout else {
        panic!("expected split pane layout");
    };

    assert_eq!(axis, expected_axis);
    assert_eq!(first, BrowserPaneId::primary());
    assert_eq!(active, second);
    assert_eq!(browser.current_dir, directory);
    let pane = browser.panes.iter().find(|pane| pane.id == second).expect("split destination pane");
    assert_eq!(pane.current_dir, directory);
}

#[test]
fn folder_middle_click_split_plain_middle_click_keeps_opening_directory_in_new_tab() {
    let mut browser = browser();
    let directory = path("/workspace/project");

    assert_eq!(browser.open_directory_from_middle_click(directory.clone()), None);

    assert!(matches!(browser.pane_layout, BrowserPaneLayout::Single { active } if active == BrowserPaneId::primary()));
    assert_eq!(browser.tabs.len(), 2);
    assert_eq!(browser.tabs[1].directory, directory);
    assert_eq!(browser.active_tab_id, browser.tabs[1].id);
}

#[test]
fn folder_middle_click_split_shift_middle_click_opens_directory_in_horizontal_split() {
    let mut browser = browser();
    let directory = path("/workspace/project");
    browser.keyboard_modifiers.shift = true;

    drop(browser.open_directory_from_middle_click(directory.clone()));

    assert_split_directory(&browser, directory, SplitAxis::Horizontal);
}

#[test]
fn folder_middle_click_split_control_middle_click_opens_directory_in_vertical_split() {
    let mut browser = browser();
    let directory = path("/workspace/project");
    browser.keyboard_modifiers.control = true;

    drop(browser.open_directory_from_middle_click(directory.clone()));

    assert_split_directory(&browser, directory, SplitAxis::Vertical);
}

#[test]
fn open_directory_middle_click_tests_plain_middle_click_keeps_opening_directory_in_new_tab() {
    let mut browser = browser();
    let directory = path("/workspace/project");

    drop(browser.open_directory_from_middle_click(directory.clone()));

    assert!(matches!(browser.pane_layout, BrowserPaneLayout::Single { active } if active == BrowserPaneId::primary()));
    assert_eq!(browser.tabs.len(), 2);
    assert_eq!(browser.tab_bar_reveal, TabBarReveal::Opening);
}

#[test]
fn open_directory_middle_click_tests_shift_middle_click_opens_directory_in_horizontal_split() {
    let mut browser = browser();
    let directory = path("/workspace/project");
    browser.keyboard_modifiers.shift = true;

    drop(browser.open_directory_from_middle_click(directory.clone()));

    assert_split_directory(&browser, directory, SplitAxis::Horizontal);
}

#[test]
fn open_directory_middle_click_tests_control_middle_click_opens_directory_in_vertical_split() {
    let mut browser = browser();
    let directory = path("/workspace/project");
    browser.keyboard_modifiers.control = true;

    drop(browser.open_directory_from_middle_click(directory.clone()));

    assert_split_directory(&browser, directory, SplitAxis::Vertical);
}

fn browser_with_tabs(ids: &[usize]) -> FileBrowser {
    let mut browser = browser();
    browser.tabs = ids.iter().map(|id| BrowserTab::directory(*id, path(&format!("/t{id}")))).collect();
    browser.active_tab_id = ids[0];
    browser.next_tab_id = ids.iter().max().unwrap() + 1;
    browser
}

#[test]
fn dragging_a_tab_reorders_and_shifts_the_tabs_passed_over() {
    let mut browser = browser_with_tabs(&[0, 1, 2, 3]);
    browser.tab_drag = Some(TabDragState {
        source_pane_id: BrowserPaneId::primary(),
        tab_id: 0,
        dragging: true,
        mode: TabDragMode::Reorder,
        split_target: None,
    });
    browser.reorder_dragged_tab(BrowserPaneId::primary(), 2);
    let ids: Vec<usize> = browser.tabs.iter().map(|t| t.id).collect();
    assert_eq!(ids, vec![1, 2, 0, 3]);
    let shifting: Vec<usize> = browser.tab_animations.iter().filter(|a| a.shifting).map(|a| a.tab_id).collect();
    assert_eq!(shifting, vec![1, 2]);
    assert_eq!(browser.shifted_tab_ids_for_reorder(3, 1), vec![2, 0]);
}

#[test]
fn start_tab_drag_picks_split_mode_with_control_and_shift() {
    let mut browser = browser_with_tabs(&[0, 1]);
    browser.keyboard_modifiers.control = true;
    browser.keyboard_modifiers.shift = true;
    browser.start_tab_drag(BrowserPaneId::primary(), 1);
    assert_eq!(browser.tab_drag.map(|d| d.mode), Some(TabDragMode::Split));
    let mut other = browser_with_tabs(&[0, 1]);
    other.start_tab_drag(BrowserPaneId(9), 1);
    assert!(other.tab_drag.is_none());
}

#[test]
fn closing_the_active_tab_selects_its_neighbour() {
    let mut browser = browser_with_tabs(&[4, 5, 6]);
    browser.active_tab_id = 5;
    assert_eq!(browser.close_tab(5), Some(4));
    assert!(browser.tab_is_closing(5));
    assert_eq!(browser.open_tab_count(), 2);
    assert_eq!(browser.close_tab(5), None);
    browser.active_tab_id = 4;
    assert_eq!(browser.adjacent_open_tab_id(0, 4), Some(6));
}

#[test]
fn last_open_tab_cannot_close() {
    let mut browser = browser_with_tabs(&[0]);
    assert_eq!(browser.close_tab(0), None);
    assert!(!browser.tab_is_closing(0));
}

#[test]
fn split_drag_moves_tab_into_a_new_pane() {
    let mut browser = browser_with_tabs(&[0, 1]);
    browser.sync_active_pane_state();
    browser.tab_drag = Some(TabDragState {
        source_pane_id: BrowserPaneId::primary(),
        tab_id: 1,
        dragging: true,
        mode: TabDragMode::Split,
        split_target: Some(SplitRegion::Left),
    });
    browser.finish_tab_drag();
    assert!(browser.tab_drag.is_none());
    let BrowserPaneLayout::Split { axis, first, second, active } = browser.pane_layout else {
        panic!("expected split");
    };
    assert_eq!(axis, SplitAxis::Horizontal);
    assert_eq!(first, BrowserPaneId(1));
    assert_eq!(second, BrowserPaneId::primary());
    assert_eq!(active, BrowserPaneId(1));
    assert_eq!(browser.current_dir, path("/t1"));
    assert_eq!(browser.panes.len(), 2);
    assert_eq!(browser.panes[0].tabs.len(), 1);
    assert_eq!(browser.panes[1].tabs[0].id, 1);
}

#[test]
fn path_field_shows_trash_label_for_trash_tabs() {
    assert_eq!(path_input_for_tab(&BrowserTab::trash(3)), "Trash");
    assert_eq!(path_input_for_tab(&BrowserTab::directory(3, path("/srv"))), "/srv");
}

#[test]
fn tab_bar_follows_tab_count() {
    let mut browser = browser_with_tabs(&[0, 1]);
    browser.sync_tab_bar_visibility();
    assert_eq!(browser.tab_bar_reveal, TabBarReveal::Opening);
    assert!(browser.tab_bar_reveal_animation_is_active());
    browser.advance_tab_bar_reveal_animation(true);
    assert_eq!(browser.tab_bar_reveal, TabBarReveal::Visible);
    browser.tabs.truncate(1);
    browser.sync_tab_bar_visibility();
    assert_eq!(browser.tab_bar_reveal, TabBarReveal::Closing);
}

#[test]
fn new_tabs_take_fresh_identifiers() {
    let mut browser = FileBrowser::new(FsPath::from_text("/first"));
    browser.open_directory_in_new_tab(FsPath::from_text("/second"));
    browser.open_directory_in_new_tab(FsPath::from_text("/third"));
    let tab_ids = browser.tabs.iter().map(|tab| tab.id).collect::<Vec<_>>();
    assert_eq!(tab_ids, vec![0, 1, 2]);
    assert_eq!(browser.next_tab_id, 3);
    assert_eq!(browser.active_tab_id, 2);
}

#[test]
fn trash_opens_in_a_fresh_tab() {
    let mut browser = FileBrowser::new(FsPath::from_text("/first"));
    browser.preview = Some(FsPath::from_text("/first/a.txt"));
    browser.open_trash_in_new_tab();
    assert_eq!(browser.tabs.len(), 2);
    assert!(browser.tabs[1].is_trash_view);
    assert_eq!(browser.tabs[1].id, 1);
    assert_eq!(browser.active_tab_id, 1);
    assert_eq!(browser.next_tab_id, 2);
    assert_eq!(browser.preview, None);
    assert!(browser.back_stack.is_empty());
    assert_eq!(browser.tab_bar_reveal, TabBarReveal::Opening);
}
