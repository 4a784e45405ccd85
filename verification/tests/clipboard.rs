use file_browser_core::browser::{ContextMenuState, FileBrowser};
use file_browser_core::clipboard::{ClipboardPaste, DesktopClipboardContent};
use file_browser_core::file_drop::{FileClipboardOperation, FileClipboardSelection};
use file_browser_core::fs_path::FsPath;

fn path(text: &str) -> FsPath {
    FsPath::from_text(text)
}

fn selection(operation: FileClipboardOperation, paths: &[&str]) -> FileClipboardSelection {
    FileClipboardSelection { operation, paths: paths.iter().map(|p| path(p)).collect() }
}

#[test]
fn copy_and_cut_remember_the_pending_operation() {
    let mut browser = FileBrowser::new(path("/workspace"));
    browser.context_menu = Some(ContextMenuState { paste_directory: None });
    let written = browser.copy_selected(vec![path("/workspace/a")]);
    assert_eq!(written, Some(selection(FileClipboardOperation::Copy, &["/workspace/a"])));
    assert_eq!(browser.pending_operation, written);
    assert!(browser.context_menu.is_none());

    let cut = browser.move_selected(vec![path("/workspace/b")]);
    assert_eq!(cut, Some(selection(FileClipboardOperation::Move, &["/workspace/b"])));
    assert_eq!(browser.pending_operation, cut);

    assert_eq!(browser.copy_selected(vec![]), None);
    assert_eq!(browser.pending_operation, cut);
    browser.is_trash_view = true;
    assert_eq!(browser.copy_selected(vec![path("/x")]), None);
    assert_eq!(browser.pending_operation, cut);
}

#[test]
fn paste_reads_the_clipboard_for_the_menu_directory() {
    let mut browser = FileBrowser::new(path("/workspace"));
    browser.copy_selected(vec![path("/workspace/a")]);
    browser.context_menu = Some(ContextMenuState { paste_directory: Some(path("/workspace/dir")) });
    let (directory, fallback) = browser.paste_pending().expect("paste");
    assert_eq!(directory, path("/workspace/dir"));
    assert_eq!(fallback, Some(selection(FileClipboardOperation::Copy, &["/workspace/a"])));
    assert!(browser.context_menu.is_none());
    assert_eq!(browser.paste_pending().expect("paste").0, path("/workspace"));
    browser.is_trash_view = true;
    assert!(browser.paste_pending().is_none());
}

#[test]
fn desktop_clipboard_content_wins_over_the_fallback() {
    let mut browser = FileBrowser::new(path("/workspace"));
    let fallback = Some(selection(FileClipboardOperation::Copy, &["/workspace/a"]));
    let files = selection(FileClipboardOperation::Move, &["/elsewhere/b"]);
    assert_eq!(
        browser.accept_desktop_clipboard_paste(
            path("/workspace"),
            fallback.clone(),
            Ok(Some(DesktopClipboardContent::Files(files.clone())))
        ),
        ClipboardPaste::Files { directory: path("/workspace"), selection: files }
    );
    assert_eq!(
        browser.accept_desktop_clipboard_paste(
            path("/workspace"),
            None,
            Ok(Some(DesktopClipboardContent::Text("note".to_owned())))
        ),
        ClipboardPaste::Text { directory: path("/workspace"), text: "note".to_owned() }
    );
    assert_eq!(
        browser.accept_desktop_clipboard_paste(path("/workspace"), fallback.clone(), Ok(None)),
        ClipboardPaste::Files { directory: path("/workspace"), selection: fallback.clone().unwrap() }
    );
    assert_eq!(
        browser.accept_desktop_clipboard_paste(path("/workspace"), fallback.clone(), Err("no clipboard".to_owned())),
        ClipboardPaste::Files { directory: path("/workspace"), selection: fallback.unwrap() }
    );
    assert_eq!(browser.error, None);
    assert_eq!(
        browser.accept_desktop_clipboard_paste(path("/workspace"), None, Err("no clipboard".to_owned())),
        ClipboardPaste::Nothing
    );
    assert_eq!(browser.error.as_deref(), Some("no clipboard"));
}

#[test]
fn clipboard_write_outcome_sets_or_clears_the_error() {
    let mut browser = FileBrowser::new(path("/workspace"));
    browser.accept_file_clipboard_write(Err("denied".to_owned()));
    assert_eq!(browser.error.as_deref(), Some("denied"));
    browser.accept_file_clipboard_write(Ok(()));
    assert_eq!(browser.error, None);
}
