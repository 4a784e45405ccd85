use file_browser_core::browser::{FileBrowser, StartupLocationPolicy};
use file_browser_core::fs_path::FsPath;

fn path(text: &str) -> FsPath {
    FsPath::from_text(text)
}

fn browser_with_custom_directory(directory: &str) -> FileBrowser {
    let mut browser = FileBrowser::new(path("/home/user"));
    browser.startup_custom_directory = path(directory);
    browser
}

#[test]
fn previous_state_startup_policy_enables_view_state_saving() {
    let mut browser = FileBrowser::new(path("/home/user"));

    drop(browser.select_startup_location_policy(StartupLocationPolicy::PreviousSession, false, None));

    assert_eq!(browser.startup_location_policy, StartupLocationPolicy::PreviousSession);
    assert!(browser.save_view_state);
    assert!(browser.pending_browser_session_save);
}

#[test]
fn non_previous_startup_policy_disables_view_state_saving() {
    let mut browser = FileBrowser::new(path("/home/user"));
    browser.startup_location_policy = StartupLocationPolicy::PreviousSession;
    browser.save_view_state = true;

    drop(browser.select_startup_location_policy(StartupLocationPolicy::Home, false, None));

    assert_eq!(browser.startup_location_policy, StartupLocationPolicy::Home);
    assert!(!browser.save_view_state);
    assert!(!browser.pending_browser_session_save);
}

#[test]
fn current_startup_directory_validation_saves_only_usable_directory() {
    let mut browser = browser_with_custom_directory("/original");
    let requested_directory = path("/requested");

    browser.update_startup_custom_directory_input(requested_directory.path_text());
    drop(browser.commit_startup_custom_directory_input());
    let request = browser.pending_startup_directory_validation.clone().expect("pending validation request");
    assert_eq!(browser.startup_custom_directory, path("/original"));
    drop(browser.accept_startup_directory_validation(request, true));

    assert_eq!(browser.startup_custom_directory, requested_directory);
    assert_eq!(browser.startup_custom_directory_error, None);
    assert!(browser.pending_startup_directory_validation.is_none());

    browser.update_startup_custom_directory_input("/unavailable".to_owned());
    drop(browser.commit_startup_custom_directory_input());
    let request = browser.pending_startup_directory_validation.clone().expect("pending validation request");
    drop(browser.accept_startup_directory_validation(request, false));

    assert_eq!(browser.startup_custom_directory, requested_directory);
    assert_eq!(browser.startup_custom_directory_error.as_deref(), Some("Choose an existing directory."));
}

#[test]
fn input_change_rejects_late_startup_directory_success_and_failure() {
    let mut browser = browser_with_custom_directory("/original");

    browser.update_startup_custom_directory_input("/first".to_owned());
    drop(browser.commit_startup_custom_directory_input());
    let first_request = browser.pending_startup_directory_validation.clone().expect("first validation request");
    browser.update_startup_custom_directory_input("/second".to_owned());
    drop(browser.accept_startup_directory_validation(first_request, true));

    assert_eq!(browser.startup_custom_directory, path("/original"));
    assert_eq!(browser.startup_custom_directory_error, None);

    drop(browser.commit_startup_custom_directory_input());
    let second_request = browser.pending_startup_directory_validation.clone().expect("second validation request");
    browser.update_startup_custom_directory_input("/third".to_owned());
    drop(browser.accept_startup_directory_validation(second_request, false));

    assert_eq!(browser.startup_custom_directory_error, None);
    assert_eq!(browser.startup_custom_directory_input, "/third");
}

#[test]
fn newer_startup_directory_request_replaces_same_input_generation() {
    let mut browser = browser_with_custom_directory("/original");

    browser.update_startup_custom_directory_input("/requested".to_owned());
    drop(browser.commit_startup_custom_directory_input());
    let first_request = browser.pending_startup_directory_validation.clone().expect("first validation request");
    drop(browser.commit_startup_custom_directory_input());
    let second_request = browser.pending_startup_directory_validation.clone().expect("replacement validation request");
    assert_ne!(first_request.generation, second_request.generation);

    drop(browser.accept_startup_directory_validation(first_request, true));
    assert_eq!(browser.startup_custom_directory, path("/original"));

    drop(browser.accept_startup_directory_validation(second_request, true));
    assert_eq!(browser.startup_custom_directory, path("/requested"));
}

#[test]
fn blank_directory_input_asks_for_a_path() {
    let mut browser = browser_with_custom_directory("/original");
    browser.update_startup_custom_directory_input(" \t ".to_owned());
    assert!(browser.commit_startup_custom_directory_input().is_none());
    assert_eq!(browser.startup_custom_directory_error.as_deref(), Some("Enter a directory path."));
    assert!(browser.pending_startup_directory_validation.is_none());
}

#[test]
fn committed_directory_is_trimmed_and_normalised() {
    let mut browser = browser_with_custom_directory("/original");
    browser.update_startup_custom_directory_input("  /srv//media/ \n".to_owned());
    let request = browser.commit_startup_custom_directory_input().expect("request");
    assert_eq!(request.directory, path("/srv/media"));
    assert_eq!(request.input, "  /srv//media/ \n");
    assert!(browser.accept_startup_directory_validation(request, true));
    assert_eq!(browser.startup_custom_directory_input, "/srv/media");
}

#[test]
fn picking_the_current_policy_changes_nothing() {
    let mut browser = FileBrowser::new(path("/home/user"));
    let generation = browser.startup_directory_validation_generation;
    assert!(browser.select_startup_location_policy(StartupLocationPolicy::Home, true, None).is_none());
    assert_eq!(browser.startup_directory_validation_generation, generation);
}
