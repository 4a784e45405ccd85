use file_browser_core::browser::{BrowserPaneLayout, BrowserTab, FileBrowser, SplitAxis, StartupLocationPolicy};
use file_browser_core::fs_path::FsPath;
use file_browser_core::model::{BrowserPaneId, BrowserViewMode};
use file_browser_core::session::{BrowserPaneSession, BrowserSessionSnapshot, SessionSaveAction};
use file_browser_core::startup_flow::UserConfig;

fn path(text: &str) -> FsPath {
    FsPath::from_text(text)
}

fn default_user_config() -> UserConfig {
    UserConfig {
        startup_location_policy: StartupLocationPolicy::Home,
        save_view_state: false,
        startup_custom_directory: path("/home/user"),
        browser_view_mode: BrowserViewMode::List,
    }
}

fn previous_session_config() -> UserConfig {
    UserConfig {
        startup_location_policy: StartupLocationPolicy::PreviousSession,
        save_view_state: true,
        ..default_user_config()
    }
}

fn tab_session(id: usize, directory: &str, view_mode: BrowserViewMode) -> BrowserTab {
    let mut tab = BrowserTab::directory(id, path(directory));
    tab.view_mode = view_mode;
    tab
}

fn single_pane_snapshot(tab: BrowserTab) -> BrowserSessionSnapshot {
    BrowserSessionSnapshot {
        panes: vec![BrowserPaneSession { id: BrowserPaneId(0), tabs: vec![tab], active_tab_id: 0 }],
        layout: BrowserPaneLayout::Single { active: BrowserPaneId(0) },
    }
}

#[test]
fn home_startup_opens_home_directory() {
    let home = path("/tmp/startup/home");
    let mut browser = FileBrowser::new(path("/"));

    browser.accept_startup_environment(home.clone(), default_user_config(), true);

    assert_eq!(browser.current_dir, home);
    assert!(!browser.is_trash_view);
    assert_eq!(browser.error, None);
    assert!(browser.is_loading);
    assert_eq!(browser.tabs.len(), 1);
    assert_eq!(browser.pane_layout.active(), BrowserPaneId(0));
}

#[test]
fn custom_startup_opens_configured_directory() {
    let home = path("/tmp/startup/home");
    let workspace = path("/tmp/startup/workspace");
    let user_config = UserConfig {
        startup_location_policy: StartupLocationPolicy::CustomDirectory,
        startup_custom_directory: workspace.clone(),
        ..default_user_config()
    };
    let mut browser = FileBrowser::new(path("/"));

    browser.accept_startup_environment(home, user_config, true);

    assert_eq!(browser.current_dir, workspace);
    assert_eq!(browser.error, None);
    assert!(browser.is_loading);
}

#[test]
fn invalid_custom_startup_directory_falls_back_home_with_error() {
    let home = path("/tmp/startup/home");
    let user_config = UserConfig {
        startup_location_policy: StartupLocationPolicy::CustomDirectory,
        startup_custom_directory: path("/tmp/startup/missing"),
        ..default_user_config()
    };
    let mut browser = FileBrowser::new(path("/"));

    browser.accept_startup_environment(home.clone(), user_config, false);

    assert_eq!(browser.current_dir, home);
    assert!(browser
        .error
        .as_deref()
        .is_some_and(|error| error.contains("Could not open startup directory")));
}

#[test]
fn previous_session_legacy_disabled_save_view_state_is_normalized() {
    let home = path("/tmp/startup/home");
    let user_config = UserConfig { save_view_state: false, ..previous_session_config() };
    let snapshot = single_pane_snapshot(tab_session(0, "/tmp/startup/previous", BrowserViewMode::List));
    let mut browser = FileBrowser::new(path("/"));

    browser.accept_startup_environment(home, user_config, true);
    browser.accept_operation_store(Ok(Some(snapshot)), &vec![vec![true]]);

    assert_eq!(browser.current_dir, path("/tmp/startup/previous"));
    assert!(browser.save_view_state);
}

#[test]
fn home_startup_policy_does_not_schedule_browser_session_write() {
    let mut browser = FileBrowser::new(path("/"));
    browser.apply_loaded_user_config(default_user_config());

    browser.accept_operation_store(Ok(None), &vec![]);
    let action = browser.request_browser_session_save(true, None);

    assert!(!browser.pending_browser_session_save);
    assert!(matches!(action, SessionSaveAction::Skip));
    assert_eq!(browser.browser_session_saves_in_flight, 0);
}

#[test]
fn previous_session_with_invalid_directories_falls_back_home_with_error() {
    let home = path("/tmp/startup/home");
    let snapshot = single_pane_snapshot(tab_session(0, "/tmp/startup/missing", BrowserViewMode::List));
    let mut browser = FileBrowser::new(path("/"));

    browser.accept_startup_environment(home.clone(), previous_session_config(), true);
    browser.accept_operation_store(Ok(Some(snapshot)), &vec![vec![false]]);

    assert_eq!(browser.current_dir, home);
    assert!(browser
        .error
        .as_deref()
        .is_some_and(|error| error.contains("Saved view state could not be restored")));
}

#[test]
fn previous_session_falls_back_home_when_operation_store_fails() {
    let home = path("/tmp/startup/home");
    let mut browser = FileBrowser::new(path("/"));

    browser.accept_startup_environment(home.clone(), previous_session_config(), true);
    browser.accept_operation_store(Err("state database is unavailable".to_owned()), &vec![]);

    assert_eq!(browser.current_dir, home);
    assert!(browser
        .error
        .as_deref()
        .is_some_and(|error| error.contains("Failed to restore saved view state")));
}

#[test]
fn previous_session_waits_for_the_store_before_opening() {
    let home = path("/tmp/startup/home");
    let mut browser = FileBrowser::new(path("/initial"));

    browser.accept_startup_environment(home.clone(), previous_session_config(), true);

    assert_eq!(browser.current_dir, path("/initial"));
    assert_eq!(browser.home_dir, home);
    assert!(browser.save_view_state);
}

#[test]
fn previous_session_without_saved_state_opens_home_with_error() {
    let home = path("/tmp/startup/home");
    let mut browser = FileBrowser::new(path("/"));

    browser.accept_startup_environment(home.clone(), previous_session_config(), true);
    browser.accept_operation_store(Ok(None), &vec![]);

    assert_eq!(browser.current_dir, home);
    assert_eq!(
        browser.error.as_deref(),
        Some("No saved view state was found; opening the home directory.")
    );
}

#[test]
fn store_failure_outside_session_restore_only_shows_the_error() {
    let home = path("/tmp/startup/home");
    let mut browser = FileBrowser::new(path("/"));

    browser.accept_startup_environment(home.clone(), default_user_config(), true);
    browser.accept_operation_store(Err("locked".to_owned()), &vec![]);

    assert_eq!(browser.current_dir, home);
    assert_eq!(
        browser.error.as_deref(),
        Some("Failed to initialize file operation queue storage: locked")
    );
}

#[test]
fn previous_session_restores_split_layout_and_active_pane() {
    let home = path("/tmp/startup/home");
    let snapshot = BrowserSessionSnapshot {
        panes: vec![
            BrowserPaneSession {
                id: BrowserPaneId(0),
                tabs: vec![
                    tab_session(1, "/tmp/startup/left", BrowserViewMode::List),
                    tab_session(2, "/tmp/startup/left-second", BrowserViewMode::Columns),
                ],
                active_tab_id: 2,
            },
            BrowserPaneSession {
                id: BrowserPaneId(1),
                tabs: vec![tab_session(3, "/tmp/startup/right", BrowserViewMode::List)],
                active_tab_id: 3,
            },
        ],
        layout: BrowserPaneLayout::Split {
            axis: SplitAxis::Horizontal,
            first: BrowserPaneId(0),
            second: BrowserPaneId(1),
            active: BrowserPaneId(1),
        },
    };
    let mut browser = FileBrowser::new(path("/"));

    browser.accept_startup_environment(home, previous_session_config(), true);
    browser.accept_operation_store(Ok(Some(snapshot)), &vec![vec![true, true], vec![true]]);

    assert_eq!(browser.current_dir, path("/tmp/startup/right"));
    assert_eq!(browser.view_mode, BrowserViewMode::List);
    assert!(matches!(
        browser.pane_layout,
        BrowserPaneLayout::Split { axis: SplitAxis::Horizontal, active: BrowserPaneId(1), .. }
    ));
    assert_eq!(browser.panes.len(), 2);
    let left_pane = browser.panes.iter().find(|pane| pane.id == BrowserPaneId(0)).expect("left pane restored");
    assert_eq!(left_pane.active_tab_id, 2);
    assert_eq!(left_pane.tabs.len(), 2);
}

#[test]
fn loaded_user_config_updates_startup_view_mode() {
    let mut browser = FileBrowser::new(path("/"));
    browser.view_mode = BrowserViewMode::Columns;
    let user_config = UserConfig { browser_view_mode: BrowserViewMode::List, ..default_user_config() };

    browser.accept_startup_environment(path("/home/user"), user_config, true);

    assert_eq!(browser.view_mode, BrowserViewMode::List);
    assert!(browser
        .tabs
        .iter()
        .find(|tab| tab.id == browser.active_tab_id)
        .is_some_and(|tab| tab.view_mode == BrowserViewMode::List));
    assert!(browser
        .panes
        .iter()
        .find(|pane| pane.id == BrowserPaneId(0))
        .is_some_and(|pane| pane.view_mode == BrowserViewMode::List));
}
