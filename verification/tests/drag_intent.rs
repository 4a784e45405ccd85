use file_browser_core::browser::FileBrowser;
use file_browser_core::fs_path::FsPath;
use file_browser_core::model::{FileDragDropIntent, KeyboardModifiers};

fn path(text: &str) -> FsPath {
    FsPath::from_text(text)
}

fn modifiers(control: bool, shift: bool, alt: bool) -> KeyboardModifiers {
    KeyboardModifiers { control, shift, alt, command: false }
}

#[test]
fn drag_drop_intent_follows_live_modifiers() {
    let mut browser = FileBrowser::new(path("/home/user"));
    let target = path("/tmp/drag-target");

    assert_eq!(browser.file_drag_drop_intent(&[], &target), FileDragDropIntent::Move);

    browser.keyboard_modifiers = modifiers(true, false, false);
    assert_eq!(browser.file_drag_drop_intent(&[], &target), FileDragDropIntent::Copy);

    browser.keyboard_modifiers = modifiers(false, true, false);
    assert_eq!(browser.file_drag_drop_intent(&[], &target), FileDragDropIntent::Move);
    browser.keyboard_modifiers = modifiers(true, true, false);
    assert_eq!(browser.file_drag_drop_intent(&[], &target), FileDragDropIntent::Move);

    browser.keyboard_modifiers = modifiers(false, false, true);
    assert_eq!(browser.file_drag_drop_intent(&[], &target), FileDragDropIntent::CreateLink);
    browser.keyboard_modifiers = modifiers(true, false, true);
    assert_eq!(browser.file_drag_drop_intent(&[], &target), FileDragDropIntent::Copy);
}

#[test]
fn alt_drag_intent_falls_back_to_move_on_remote_mount() {
    let mut browser = FileBrowser::new(path("/home/user"));
    browser.remote_mount_points = vec![path("/run/user/1000/gvfs")];
    browser.keyboard_modifiers = modifiers(false, false, true);

    let remote_source = path("/run/user/1000/gvfs/mtp/DCIM/photo.jpg");
    let local_source = path("/home/user/photo.jpg");
    let local_target = path("/home/user/photos");
    let remote_target = path("/run/user/1000/gvfs/mtp/DCIM");

    assert_eq!(browser.file_drag_drop_intent(&[remote_source], &local_target), FileDragDropIntent::Move);
    assert_eq!(
        browser.file_drag_drop_intent(std::slice::from_ref(&local_source), &remote_target),
        FileDragDropIntent::Move
    );
    assert_eq!(
        browser.file_drag_drop_intent(std::slice::from_ref(&local_source), &local_target),
        FileDragDropIntent::CreateLink
    );
}
