use file_browser_core::browser::{FileBrowser, FileDropPrompt};
use file_browser_core::conflict::DestructiveActionConfirmation;
use file_browser_core::deletion::{QueuedFileOperation, TrashRequest};
use file_browser_core::fs_path::FsPath;

fn path(text: &str) -> FsPath {
    FsPath::from_text(text)
}

const MOUNT: &str = "/run/user/1000/gvfs/smb-share:server=server,share=share";

fn browser_with_mount() -> FileBrowser {
    let mut browser = FileBrowser::new(path("/workspace"));
    browser.remote_mount_points = vec![path(MOUNT)];
    browser
}

#[test]
fn local_delete_still_uses_trash_operation() {
    let local_path = path("/workspace/local.txt");
    let mut browser = FileBrowser::new(path("/workspace"));

    let request = browser.trash_selected(vec![local_path.clone()]);

    assert!(browser.destructive_action_confirmation.is_none());
    assert_eq!(request, TrashRequest::Queue(QueuedFileOperation::Trash { paths: vec![local_path] }));
}

#[test]
fn network_delete_requests_permanent_delete_confirmation() {
    let network_path = path(MOUNT).join("remote.txt");
    let mut browser = browser_with_mount();

    let request = browser.trash_selected(vec![network_path.clone()]);

    assert_eq!(request, TrashRequest::ConfirmationRequested);
    assert!(matches!(
        &browser.destructive_action_confirmation,
        Some(DestructiveActionConfirmation::DeletePermanently { paths }) if paths == &vec![network_path]
    ));
}

#[test]
fn mixed_local_and_network_delete_is_rejected() {
    let network_path = path(MOUNT).join("remote.txt");
    let local_path = path("/workspace/local.txt");
    let mut browser = browser_with_mount();

    let request = browser.trash_selected(vec![local_path, network_path]);

    assert_eq!(request, TrashRequest::Nothing);
    assert!(browser.destructive_action_confirmation.is_none());
    assert_eq!(
        browser.error.as_deref(),
        Some("Delete local and network items separately so local files can use Trash")
    );
}

#[test]
fn trash_view_deletes_its_entries_and_empty_selection_does_nothing() {
    let mut browser = FileBrowser::new(path("/workspace"));
    assert_eq!(browser.trash_selected(vec![]), TrashRequest::Nothing);
    browser.is_trash_view = true;
    assert_eq!(browser.trash_selected(vec![path("/x")]), TrashRequest::DeleteTrashEntries);
}

#[test]
fn confirming_runs_the_pending_action_once() {
    let mut browser = FileBrowser::new(path("/workspace"));
    browser.destructive_action_confirmation =
        Some(DestructiveActionConfirmation::DeletePermanently { paths: vec![path("/n/a")] });
    assert_eq!(
        browser.confirm_destructive_action(),
        Some(QueuedFileOperation::DeletePermanently { paths: vec![path("/n/a")] })
    );
    assert!(browser.destructive_action_confirmation.is_none());
    assert_eq!(browser.confirm_destructive_action(), None);

    browser.destructive_action_confirmation = Some(DestructiveActionConfirmation::EmptyTrash);
    assert_eq!(browser.confirm_destructive_action(), Some(QueuedFileOperation::EmptyTrash));
    browser.destructive_action_confirmation = Some(DestructiveActionConfirmation::DeleteTrashEntries { entries: vec![] });
    assert_eq!(browser.confirm_destructive_action(), None);
}

#[test]
fn second_file_drop_keeps_the_pending_prompt() {
    let mut browser = FileBrowser::new(path("/workspace"));
    assert!(browser.request_file_drop_prompt(path("/workspace/project"), vec![path("/outside/first.txt")]));
    assert!(!browser.request_file_drop_prompt(path("/workspace/project"), vec![path("/outside/second.txt")]));
    assert_eq!(
        browser.file_drop_prompt,
        Some(FileDropPrompt { paste_directory: path("/workspace/project"), paths: vec![path("/outside/first.txt")] })
    );
    assert_eq!(browser.error.as_deref(), Some("Finish the current file operation prompt before dropping files"));
    assert!(!browser.request_file_drop_prompt(path("/workspace"), vec![]));
}

#[test]
fn outside_drop_without_a_measured_directory_uses_the_paste_target() {
    let source = path("/outside/report.txt");
    let mut browser = FileBrowser::new(path("/workspace"));
    browser.cursor_paste_directory = Some(path("/workspace/project"));

    assert!(browser.accept_external_wayland_file_drop(None, false, false, vec![source.clone()]));
    assert_eq!(
        browser.file_drop_prompt,
        Some(FileDropPrompt { paste_directory: path("/workspace/project"), paths: vec![source] })
    );
}

#[test]
fn outside_drop_prefers_the_measured_directory_and_skips_panes_and_trash() {
    let mut browser = FileBrowser::new(path("/workspace"));
    assert!(browser.accept_external_wayland_file_drop(
        Some(path("/workspace/target")),
        true,
        true,
        vec![path("/outside/a.txt")]
    ));
    assert_eq!(browser.file_drop_prompt.as_ref().unwrap().paste_directory, path("/workspace/target"));

    let mut over_pane = FileBrowser::new(path("/workspace"));
    assert!(!over_pane.accept_external_wayland_file_drop(None, true, true, vec![path("/outside/a.txt")]));
    assert!(over_pane.file_drop_prompt.is_none());

    let mut trash = FileBrowser::new(path("/workspace"));
    trash.is_trash_view = true;
    assert!(!trash.accept_external_wayland_file_drop(None, false, false, vec![path("/outside/a.txt")]));
}
