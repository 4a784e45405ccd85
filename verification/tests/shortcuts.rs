use file_browser_core::browser::{FileBrowser, FileDropPrompt};
use file_browser_core::conflict::DestructiveActionConfirmation;
use file_browser_core::fs_path::FsPath;
use file_browser_core::shortcuts::{
    keyboard_shortcut_route, FileBrowserShortcutOwnership, KeyboardShortcutRoute, ShortcutRoutingContext,
};

fn path(text: &str) -> FsPath {
    FsPath::from_text(text)
}

const DELETE_KEY: ShortcutRoutingContext =
    ShortcutRoutingContext::FileBrowserContent(FileBrowserShortcutOwnership::CapturedDeleteEvent);
const TEXT_KEY: ShortcutRoutingContext =
    ShortcutRoutingContext::FileBrowserContent(FileBrowserShortcutOwnership::FocusedTextInputProbe);

#[test]
fn shortcut_routes_follow_the_ownership_matrix() {
    assert_eq!(keyboard_shortcut_route(false, DELETE_KEY, true), KeyboardShortcutRoute::Stop);
    assert_eq!(keyboard_shortcut_route(false, DELETE_KEY, false), KeyboardShortcutRoute::InvokeFileBrowserContent);
    assert_eq!(keyboard_shortcut_route(false, TEXT_KEY, false), KeyboardShortcutRoute::QueryTextInputFocus);
    assert_eq!(keyboard_shortcut_route(false, TEXT_KEY, true), KeyboardShortcutRoute::Stop);
    assert_eq!(
        keyboard_shortcut_route(false, ShortcutRoutingContext::Application, true),
        KeyboardShortcutRoute::InvokeApplication
    );
    assert_eq!(keyboard_shortcut_route(true, TEXT_KEY, true), KeyboardShortcutRoute::CapturedPreview);
    assert_eq!(keyboard_shortcut_route(true, TEXT_KEY, false), KeyboardShortcutRoute::QueryTextInputFocus);
}

#[test]
fn untaken_delete_does_not_cross_an_open_prompt() {
    let mut browser = FileBrowser::new(path("/workspace"));
    assert_eq!(browser.route_keyboard_shortcut(false, DELETE_KEY, false), KeyboardShortcutRoute::InvokeFileBrowserContent);

    browser.destructive_action_confirmation =
        Some(DestructiveActionConfirmation::DeletePermanently { paths: vec![path("/workspace/report.txt")] });
    assert_eq!(browser.route_keyboard_shortcut(false, DELETE_KEY, false), KeyboardShortcutRoute::Stop);
    browser.destructive_action_confirmation = None;

    browser.file_drop_prompt =
        Some(FileDropPrompt { paste_directory: path("/workspace"), paths: vec![path("/incoming/report.txt")] });
    assert_eq!(browser.route_keyboard_shortcut(false, DELETE_KEY, false), KeyboardShortcutRoute::Stop);
    browser.file_drop_prompt = None;

    browser.surfaces.network_connection_editor = true;
    assert_eq!(browser.route_keyboard_shortcut(false, DELETE_KEY, false), KeyboardShortcutRoute::Stop);
    assert_eq!(
        browser.route_keyboard_shortcut(false, ShortcutRoutingContext::Application, false),
        KeyboardShortcutRoute::InvokeApplication
    );
}
