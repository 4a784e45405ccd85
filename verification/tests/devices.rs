use file_browser_core::browser::{ContextMenuState, FileBrowser};
use file_browser_core::fs_path::FsPath;
use file_browser_core::sidebar_bookmarks::SidebarDeviceAction;

fn path(text: &str) -> FsPath {
    FsPath::from_text(text)
}

#[test]
fn mounting_a_device_opens_its_mount_point() {
    let mut browser = FileBrowser::new(path("/home/user"));
    browser.context_menu = Some(ContextMenuState { paste_directory: None });
    browser.perform_sidebar_device_action("usb-1".to_owned());
    assert!(browser.context_menu.is_none());
    assert_eq!(browser.pending_sidebar_device_action.as_deref(), Some("usb-1"));

    let open = browser.accept_sidebar_device_action_finished(
        "usb-1".to_owned(),
        SidebarDeviceAction::Mount,
        Ok(Some(path("/run/media/user/USB"))),
    );
    assert_eq!(open, Some(path("/run/media/user/USB")));
    assert_eq!(browser.pending_sidebar_device_action, None);
}

#[test]
fn other_devices_stay_pending_and_failures_are_shown() {
    let mut browser = FileBrowser::new(path("/home/user"));
    browser.perform_sidebar_device_action("usb-1".to_owned());
    let open = browser.accept_sidebar_device_action_finished(
        "usb-2".to_owned(),
        SidebarDeviceAction::Eject,
        Err("device is busy".to_owned()),
    );
    assert_eq!(open, None);
    assert_eq!(browser.pending_sidebar_device_action.as_deref(), Some("usb-1"));
    assert_eq!(browser.error.as_deref(), Some("Could not eject storage device: device is busy"));

    let open = browser.accept_sidebar_device_action_finished(
        "usb-1".to_owned(),
        SidebarDeviceAction::Unmount,
        Ok(Some(path("/ignored"))),
    );
    assert_eq!(open, None);
    assert_eq!(browser.pending_sidebar_device_action, None);
}
