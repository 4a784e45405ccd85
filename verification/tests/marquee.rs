use file_browser_core::browser::FileBrowser;
use file_browser_core::fs_path::FsPath;
use file_browser_core::marquee::{MarqueeStart, SelectionMarqueePhase, SelectionMarqueeSource};

fn path(text: &str) -> FsPath {
    FsPath::from_text(text)
}

fn selected_browser() -> FileBrowser {
    let mut browser = FileBrowser::new(path("/w"));
    browser.selected = Some(path("/w/a"));
    browser.selected_paths = vec![path("/w/a"), path("/w/b")];
    browser.deepest_open_column_directory = Some(path("/w/d"));
    browser.preview = Some(path("/w/a"));
    browser
}

#[test]
fn renaming_commits_instead_of_starting_a_marquee() {
    let mut browser = selected_browser();
    browser.surfaces.renaming = true;
    assert_eq!(
        browser.start_selection_marquee_from(SelectionMarqueeSource::PaneBlank, None),
        MarqueeStart::CommitRename
    );
    assert!(browser.selection_marquee.is_none());
    assert_eq!(browser.preview, Some(path("/w/a")));
}

#[test]
fn pane_blank_marquee_clears_the_selection_and_the_deepest_column() {
    let mut browser = selected_browser();
    browser.drag_selection_anchor = Some(path("/w/a"));
    assert_eq!(browser.start_selection_marquee_from(SelectionMarqueeSource::PaneBlank, None), MarqueeStart::Started);
    assert!(browser.selected.is_none());
    assert!(browser.selected_paths.is_empty());
    assert!(browser.deepest_open_column_directory.is_none());
    assert!(browser.preview.is_none());
    assert!(browser.drag_selection_anchor.is_none());
    let marquee = browser.selection_marquee.as_ref().expect("marquee");
    assert_eq!(marquee.source, SelectionMarqueeSource::PaneBlank);
    assert_eq!(marquee.phase, SelectionMarqueePhase::WaitingForMovement);
    assert_eq!(marquee.base_selection, vec![path("/w/a"), path("/w/b")]);
    assert!(!marquee.preserve_existing);
}

#[test]
fn column_blank_marquee_selects_the_column_context() {
    let mut browser = selected_browser();
    let source = SelectionMarqueeSource::ColumnBlank { directory: path("/w/d") };
    assert_eq!(browser.start_selection_marquee_from(source, Some(path("/w/d"))), MarqueeStart::Started);
    assert_eq!(browser.selected, Some(path("/w/d")));
    assert_eq!(browser.selected_paths, vec![path("/w/d")]);
    assert_eq!(browser.deepest_open_column_directory, Some(path("/w/d")));
}

#[test]
fn control_marquee_keeps_the_selection() {
    let mut browser = selected_browser();
    browser.keyboard_modifiers.control = true;
    assert_eq!(browser.start_selection_marquee_from(SelectionMarqueeSource::PaneBlank, None), MarqueeStart::Started);
    assert_eq!(browser.selected_paths, vec![path("/w/a"), path("/w/b")]);
    assert_eq!(browser.deepest_open_column_directory, Some(path("/w/d")));
    assert!(browser.selection_marquee.as_ref().expect("marquee").preserve_existing);
}

#[test]
fn drag_selection_extends_from_its_anchor() {
    let mut browser = selected_browser();
    assert!(browser.extend_drag_selection_to(path("/w/c")).is_none());
    browser.start_selection_marquee_from(SelectionMarqueeSource::PaneBlank, None);
    let first = browser.extend_drag_selection_to(path("/w/b")).expect("range");
    assert_eq!((first.anchor, first.target, first.preserve_existing), (path("/w/b"), path("/w/b"), false));
    assert_eq!(browser.drag_selection_anchor, Some(path("/w/b")));
    browser.keyboard_modifiers.control = true;
    let second = browser.extend_drag_selection_to(path("/w/c")).expect("range");
    assert_eq!((second.anchor, second.target, second.preserve_existing), (path("/w/b"), path("/w/c"), true));
}
