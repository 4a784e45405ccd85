use file_browser_core::fs_path::FsPath;
use file_browser_core::model::BrowserPaneId;
use file_browser_core::scroll::{
    path_hash, smooth_scroll_axis, smooth_scroll_id, view_density_target, ScrollbarRegion, SmoothScrollAxis, ViewDensityTarget,
};

#[test]
fn view_density_target_covers_only_browsing_content_regions() {
    let pane_id = BrowserPaneId::primary();
    assert_eq!(view_density_target(&ScrollbarRegion::PaneList(pane_id)), Some(ViewDensityTarget::List));
    assert_eq!(view_density_target(&ScrollbarRegion::PaneIcons(pane_id)), Some(ViewDensityTarget::Icons));
    assert_eq!(
        view_density_target(&ScrollbarRegion::Column { pane_id, directory: FsPath::from_text("/tmp") }),
        Some(ViewDensityTarget::Columns)
    );
    assert_eq!(view_density_target(&ScrollbarRegion::ColumnBrowser(pane_id)), Some(ViewDensityTarget::Columns));
    assert_eq!(view_density_target(&ScrollbarRegion::Sidebar), None);
    assert_eq!(view_density_target(&ScrollbarRegion::AddressBar(pane_id)), None);
    assert_eq!(view_density_target(&ScrollbarRegion::Settings), None);
    assert_eq!(view_density_target(&ScrollbarRegion::TextPreview), None);
}

#[test]
fn only_the_column_browser_scrolls_sideways() {
    assert_eq!(smooth_scroll_axis(&ScrollbarRegion::ColumnBrowser(BrowserPaneId(3))), SmoothScrollAxis::Horizontal);
    assert_eq!(smooth_scroll_axis(&ScrollbarRegion::PaneList(BrowserPaneId(3))), SmoothScrollAxis::Vertical);
    assert_eq!(
        smooth_scroll_axis(&ScrollbarRegion::Column { pane_id: BrowserPaneId(3), directory: FsPath::from_text("/a") }),
        SmoothScrollAxis::Vertical
    );
}

#[test]
fn scroll_ids_name_region_and_pane() {
    assert_eq!(smooth_scroll_id(&ScrollbarRegion::Sidebar), "sidebar");
    assert_eq!(smooth_scroll_id(&ScrollbarRegion::PaneList(BrowserPaneId(0))), "pane-list-0");
    assert_eq!(smooth_scroll_id(&ScrollbarRegion::ColumnBrowser(BrowserPaneId(1207))), "column-browser-1207");
    assert_eq!(smooth_scroll_id(&ScrollbarRegion::MarkdownPreview), "markdown-preview");
}

#[test]
fn column_scroll_id_carries_the_directory_hash() {
    let directory = FsPath::from_text("/tmp/photos");
    let expected = blake3::hash(b"/tmp/photos").to_hex().to_string();
    assert_eq!(path_hash(&directory), expected);
    assert_eq!(expected.len(), 64);
    assert_ne!(path_hash(&directory), "/tmp/photos");
    assert_eq!(
        smooth_scroll_id(&ScrollbarRegion::Column { pane_id: BrowserPaneId(2), directory }),
        format!("column-scroll-2-{expected}")
    );
}
