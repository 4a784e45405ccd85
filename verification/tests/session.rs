use file_browser_core::browser::{BrowserPaneLayout, BrowserTab, FileBrowser, SplitAxis, StartupLocationPolicy};
use file_browser_core::fs_path::FsPath;
use file_browser_core::model::BrowserPaneId;
use file_browser_core::session::{
    restored_pane_from_session, sanitize_layout, BrowserPaneSession, BrowserSessionSnapshot, SessionSaveAction,
    StartupSessionPlan,
};

fn path(text: &str) -> FsPath {
    FsPath::from_text(text)
}

fn pane_session(id: u64, tabs: Vec<BrowserTab>, active: usize) -> BrowserPaneSession {
    BrowserPaneSession { id: BrowserPaneId(id), tabs, active_tab_id: active }
}

#[test]
fn restored_pane_drops_unusable_tabs_and_keeps_trash() {
    let session = pane_session(
        0,
        vec![BrowserTab::directory(1, path("/gone")), BrowserTab::trash(2), BrowserTab::directory(3, path("/ok"))],
        1,
    );
    let pane = restored_pane_from_session(session, &vec![false, false, true]).expect("restored");
    let ids: Vec<usize> = pane.tabs.iter().map(|t| t.id).collect();
    assert_eq!(ids, vec![2, 3]);
    assert_eq!(pane.active_tab_id, 2);
    assert!(pane.is_trash_view);
    assert!(pane.is_loading);
    assert_eq!(pane.path_input, "Trash");
}

#[test]
fn pane_without_usable_tabs_is_not_restored() {
    let session = pane_session(4, vec![BrowserTab::directory(1, path("/gone"))], 1);
    assert!(restored_pane_from_session(session, &vec![false]).is_none());
}

#[test]
fn saved_layout_is_kept_only_when_its_panes_exist() {
    let panes = vec![
        restored_pane_from_session(pane_session(7, vec![BrowserTab::directory(1, path("/a"))], 1), &vec![true]).unwrap(),
    ];
    let split = BrowserPaneLayout::Split {
        axis: SplitAxis::Vertical,
        first: BrowserPaneId(7),
        second: BrowserPaneId(8),
        active: BrowserPaneId(7),
    };
    assert_eq!(sanitize_layout(split, &panes), BrowserPaneLayout::Single { active: BrowserPaneId(7) });
    let single = BrowserPaneLayout::Single { active: BrowserPaneId(7) };
    assert_eq!(sanitize_layout(single, &panes), single);
}

#[test]
fn startup_plans_follow_the_policy() {
    let mut browser = FileBrowser::new(path("/home/user"));
    let home = path("/home/user");
    browser.startup_custom_directory = path("/srv/missing");

    browser.startup_location_policy = StartupLocationPolicy::Home;
    assert!(matches!(browser.startup_session_plan(&home, true, None),
        StartupSessionPlan::Directory { directory, error: None } if directory == home));

    browser.startup_location_policy = StartupLocationPolicy::CustomDirectory;
    assert!(matches!(browser.startup_session_plan(&home, true, None),
        StartupSessionPlan::Directory { directory, error: None } if directory == path("/srv/missing")));
    match browser.startup_session_plan(&home, false, None) {
        StartupSessionPlan::Directory { directory, error } => {
            assert_eq!(directory, home);
            assert_eq!(
                error.as_deref(),
                Some("Could not open startup directory /srv/missing; opening the home directory.")
            );
        }
        StartupSessionPlan::Session(_) => panic!("expected a directory"),
    }

    browser.startup_location_policy = StartupLocationPolicy::PreviousSession;
    match browser.startup_session_plan(&home, true, None) {
        StartupSessionPlan::Directory { error, .. } => {
            assert_eq!(error.as_deref(), Some("No saved view state was found; opening the home directory."));
        }
        StartupSessionPlan::Session(_) => panic!("expected a directory"),
    }
}

#[test]
fn restoring_a_session_shows_its_active_pane() {
    let mut browser = FileBrowser::new(path("/home/user"));
    let snapshot = BrowserSessionSnapshot {
        panes: vec![
            pane_session(0, vec![BrowserTab::directory(1, path("/left"))], 1),
            pane_session(5, vec![BrowserTab::directory(2, path("/right"))], 2),
        ],
        layout: BrowserPaneLayout::Split {
            axis: SplitAxis::Horizontal,
            first: BrowserPaneId(0),
            second: BrowserPaneId(5),
            active: BrowserPaneId(5),
        },
    };
    browser.error = Some("stale".to_owned());
    browser.apply_restored_session(snapshot, &path("/home/user"), &vec![vec![true], vec![true]]);
    assert!(browser.error.is_none());
    assert_eq!(browser.current_dir, path("/right"));
    assert_eq!(browser.active_tab_id, 2);
    assert_eq!(browser.panes.len(), 2);
    assert!(browser.is_loading);
}

#[test]
fn unrestorable_session_opens_home_with_an_error() {
    let mut browser = FileBrowser::new(path("/somewhere"));
    let snapshot = BrowserSessionSnapshot {
        panes: vec![pane_session(0, vec![BrowserTab::directory(1, path("/gone"))], 1)],
        layout: BrowserPaneLayout::Single { active: BrowserPaneId(0) },
    };
    browser.apply_restored_session(snapshot, &path("/home/user"), &vec![vec![false]]);
    assert_eq!(browser.error.as_deref(), Some("Saved view state could not be restored; opening the home directory."));
    assert_eq!(browser.current_dir, path("/home/user"));
    assert_eq!(browser.tabs.len(), 1);
}

#[test]
fn session_saves_wait_for_store_and_interval() {
    let mut browser = FileBrowser::new(path("/home/user"));
    assert!(matches!(browser.request_browser_session_save(true, None), SessionSaveAction::Skip));
    browser.startup_location_policy = StartupLocationPolicy::PreviousSession;
    assert!(matches!(browser.request_browser_session_save(false, None), SessionSaveAction::WaitForStore));
    assert!(browser.pending_browser_session_save);
    assert!(matches!(browser.request_browser_session_save(true, Some(100)), SessionSaveAction::Delay));
    assert!(matches!(browser.maybe_flush_pending_browser_session_save(true, Some(200)), SessionSaveAction::Skip));
    match browser.maybe_flush_pending_browser_session_save(true, Some(600)) {
        SessionSaveAction::Save(snapshot) => assert_eq!(snapshot.panes.len(), 1),
        _ => panic!("expected a save"),
    }
    assert_eq!(browser.browser_session_saves_in_flight, 1);
    assert!(!browser.pending_browser_session_save);
    assert_eq!(browser.record_browser_session_save_outcome(Err("disk full".to_owned())), Err("disk full".to_owned()));
    assert_eq!(browser.browser_session_saves_in_flight, 0);
}

#[test]
fn saved_window_restores_its_panes_and_layout() {
    let mut browser = FileBrowser::new(path("/left"));
    browser.open_directory_in_new_tab(path("/left/second"));
    browser.open_directory_in_split(path("/right"), SplitAxis::Vertical);
    let snapshot = browser.browser_session_snapshot();
    let saved_ids: Vec<BrowserPaneId> = snapshot.panes.iter().map(|pane| pane.id).collect();
    let saved_layout = snapshot.layout;
    let usable: Vec<Vec<bool>> = snapshot.panes.iter().map(|pane| vec![true; pane.tabs.len()]).collect();

    let mut restored = FileBrowser::new(path("/home/user"));
    restored.apply_restored_session(snapshot, &path("/home/user"), &usable);

    let restored_ids: Vec<BrowserPaneId> = restored.panes.iter().map(|pane| pane.id).collect();
    assert_eq!(restored_ids, saved_ids);
    assert_eq!(restored.pane_layout, saved_layout);
    assert_eq!(restored.current_dir, path("/right"));
    assert_eq!(restored.panes[0].tabs.len(), 2);
    assert_eq!(restored.error, None);
}
