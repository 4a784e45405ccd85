use vstd::prelude::*;

use crate::browser::FileBrowser;
use crate::fs_path::{FsPath, path_text_of};
use crate::model::BrowserPaneId;

verus! {

/// A scrollable region of the window.
#[derive(Debug, Clone, PartialEq, Eq)]
pub enum ScrollbarRegion {
    Sidebar,
    PaneList(BrowserPaneId),
    PaneIcons(BrowserPaneId),
    ColumnBrowser(BrowserPaneId),
    Column { pane_id: BrowserPaneId, directory: FsPath },
    AddressBar(BrowserPaneId),
    Settings,
    ShortcutSettings,
    Properties,
    OpenWithApplications,
    OperationQueue,
    BatchRenamePreview,
    SearchResults,
    PreviewDirectory,
    PreviewArchive,
    MarkdownPreview,
    TextPreview,
}

/// The view whose density a Control-wheel over a region changes.
#[derive(Debug, Clone, Copy, PartialEq, Eq, Structural)]
pub enum ViewDensityTarget {
    List,
    Icons,
    Columns,
}

/// The direction a region scrolls in.
#[derive(Debug, Clone, Copy, PartialEq, Eq, Structural)]
pub enum SmoothScrollAxis {
    Vertical,
    Horizontal,
}

/// Only the browsing views change density: the list, the icon grid, and
/// the column browser with its columns.
pub open spec fn density_target(region: ScrollbarRegion) -> Option<ViewDensityTarget> {
    match region {
        ScrollbarRegion::PaneList(_) => Some(ViewDensityTarget::List),
        ScrollbarRegion::PaneIcons(_) => Some(ViewDensityTarget::Icons),
        ScrollbarRegion::Column { .. } | ScrollbarRegion::ColumnBrowser(_) => Some(ViewDensityTarget::Columns),
        _ => None,
    }
}

/// The view whose density a Control-wheel over `region` changes: see [`density_target`].
pub fn view_density_target(region: &ScrollbarRegion) -> (r: Option<ViewDensityTarget>)
    ensures
        r == density_target(*region),
{
    match region {
        ScrollbarRegion::PaneList(_) => Some(ViewDensityTarget::List),
        ScrollbarRegion::PaneIcons(_) => Some(ViewDensityTarget::Icons),
        ScrollbarRegion::Column { .. } | ScrollbarRegion::ColumnBrowser(_) => Some(ViewDensityTarget::Columns),
        _ => None,
    }
}

/// The column browser scrolls sideways; every other region up and down.
pub fn smooth_scroll_axis(region: &ScrollbarRegion) -> (r: SmoothScrollAxis)
    ensures
        r == if region is ColumnBrowser {
            SmoothScrollAxis::Horizontal
        } else {
            SmoothScrollAxis::Vertical
        },
{
    match region {
        ScrollbarRegion::ColumnBrowser(_) => SmoothScrollAxis::Horizontal,
        _ => SmoothScrollAxis::Vertical,
    }
}

/// The BLAKE3 digest of `bytes`, as 64 lowercase hexadecimal digits.
pub uninterp spec fn blake3_hex(bytes: Seq<u8>) -> Seq<char>;

/// `c` is one of `0123456789abcdef`.
pub open spec fn is_lower_hex_digit(c: char) -> bool {
    ('0' <= c && c <= '9') || ('a' <= c && c <= 'f')
}

/// Hashes `bytes` with `blake3::Hasher` (`new`, `update`, `finalize`) and
/// renders the digest with `Hash::to_hex`. The contract claims that the text
/// is a function of the bytes alone, named [`blake3_hex`], and, as `to_hex`
/// writes each of the digest's 32 bytes as two digits of
/// `0123456789abcdef`, that it is 64 lowercase hexadecimal digits; the
/// digest's value itself is not stated.
#[verifier::external_body]
fn blake3_hex_digest(bytes: &[u8]) -> (r: String)
    ensures
        r@ == blake3_hex(bytes@),
        r@.len() == 64,
        forall|i: int| 0 <= i < 64 ==> is_lower_hex_digit(#[trigger] r@[i]),
{
    let mut hasher = blake3::Hasher::new();
    hasher.update(bytes);
    hasher.finalize().to_hex().to_string()
}

/// The hexadecimal BLAKE3 digest of a path's text, encoded as UTF-8.
pub fn path_hash(path: &FsPath) -> (r: String)
    ensures
        r@ == blake3_hex(vstd::utf8::encode_utf8(path_text_of(path@))),
        r@.len() == 64,
        forall|i: int| 0 <= i < 64 ==> is_lower_hex_digit(#[trigger] r@[i]),
{
    let text = path.path_text();
    blake3_hex_digest(text.as_str().as_bytes())
}

/// The decimal digits of `n`, most significant first.
pub open spec fn decimal(n: nat) -> Seq<char>
    decreases n,
{
    if n < 10 {
        seq![digit_char(n)]
    } else {
        decimal(n / 10).push(digit_char(n % 10))
    }
}

/// The character of a decimal digit.
pub open spec fn digit_char(d: nat) -> char {
    if d == 0 {
        '0'
    } else if d == 1 {
        '1'
    } else if d == 2 {
        '2'
    } else if d == 3 {
        '3'
    } else if d == 4 {
        '4'
    } else if d == 5 {
        '5'
    } else if d == 6 {
        '6'
    } else if d == 7 {
        '7'
    } else if d == 8 {
        '8'
    } else {
        '9'
    }
}

fn digit_text(d: u64) -> (r: &'static str)
    requires
        d < 10,
    ensures
        r@ == seq![digit_char(d as nat)],
{
    proof {
        reveal_strlit("0");
        reveal_strlit("1");
        reveal_strlit("2");
        reveal_strlit("3");
        reveal_strlit("4");
        reveal_strlit("5");
        reveal_strlit("6");
        reveal_strlit("7");
        reveal_strlit("8");
        reveal_strlit("9");
    }
    let r = if d == 0 {
        "0"
    } else if d == 1 {
        "1"
    } else if d == 2 {
        "2"
    } else if d == 3 {
        "3"
    } else if d == 4 {
        "4"
    } else if d == 5 {
        "5"
    } else if d == 6 {
        "6"
    } else if d == 7 {
        "7"
    } else if d == 8 {
        "8"
    } else {
        "9"
    };
    assert(r@ =~= seq![digit_char(d as nat)]);
    r
}

/// Appends the decimal digits of `n` to `text`.
pub fn append_decimal(text: &mut String, n: u64)
    ensures
        final(text)@ == old(text)@ + decimal(n as nat),
    decreases n,
{
    if n >= 10 {
        append_decimal(text, n / 10);
    }
    text.append(digit_text(n % 10));
    proof {
        if n < 10 {
            assert(decimal(n as nat) =~= seq![digit_char(n as nat)]);
        }
    }
}

/// The id of a region's scrollable widget.
pub open spec fn scroll_id(region: ScrollbarRegion) -> Seq<char> {
    match region {
        ScrollbarRegion::Sidebar => "sidebar"@,
        ScrollbarRegion::PaneList(p) => "pane-list-"@ + decimal(p.0 as nat),
        ScrollbarRegion::PaneIcons(p) => "pane-icons-"@ + decimal(p.0 as nat),
        ScrollbarRegion::ColumnBrowser(p) => "column-browser-"@ + decimal(p.0 as nat),
        ScrollbarRegion::Column { pane_id, directory } => "column-scroll-"@ + decimal(pane_id.0 as nat) + "-"@
            + blake3_hex(vstd::utf8::encode_utf8(path_text_of(directory@))),
        ScrollbarRegion::AddressBar(p) => "address-bar-"@ + decimal(p.0 as nat),
        ScrollbarRegion::Settings => "settings"@,
        ScrollbarRegion::ShortcutSettings => "shortcut-settings"@,
        ScrollbarRegion::Properties => "properties"@,
        ScrollbarRegion::OpenWithApplications => "open-with-applications"@,
        ScrollbarRegion::OperationQueue => "operation-queue"@,
        ScrollbarRegion::BatchRenamePreview => "batch-rename-preview"@,
        ScrollbarRegion::SearchResults => "search-results"@,
        ScrollbarRegion::PreviewDirectory => "preview-directory"@,
        ScrollbarRegion::PreviewArchive => "preview-archive"@,
        ScrollbarRegion::MarkdownPreview => "markdown-preview"@,
        ScrollbarRegion::TextPreview => "text-preview"@,
    }
}

fn text_with_number(prefix: &str, n: u64) -> (r: String)
    ensures
        r@ == prefix@ + decimal(n as nat),
{
    let mut r = String::from_str(prefix);
    append_decimal(&mut r, n);
    r
}

/// The id of a region's scrollable widget: see [`scroll_id`].
pub fn smooth_scroll_id(region: &ScrollbarRegion) -> (r: String)
    ensures
        r@ == scroll_id(*region),
{
    match region {
        ScrollbarRegion::Sidebar => {
            proof {
                reveal_strlit("sidebar");
            }
            String::from_str("sidebar")
        },
        ScrollbarRegion::PaneList(p) => {
            proof {
                reveal_strlit("pane-list-");
            }
            text_with_number("pane-list-", p.0)
        },
        ScrollbarRegion::PaneIcons(p) => {
            proof {
                reveal_strlit("pane-icons-");
            }
            text_with_number("pane-icons-", p.0)
        },
        ScrollbarRegion::ColumnBrowser(p) => {
            proof {
                reveal_strlit("column-browser-");
            }
            text_with_number("column-browser-", p.0)
        },
        ScrollbarRegion::Column { pane_id, directory } => {
            proof {
                reveal_strlit("column-scroll-");
                reveal_strlit("-");
            }
            let mut r = text_with_number("column-scroll-", pane_id.0);
            r.append("-");
            let hash = path_hash(directory);
            r.append(hash.as_str());
            r
        },
        ScrollbarRegion::AddressBar(p) => {
            proof {
                reveal_strlit("address-bar-");
            }
            text_with_number("address-bar-", p.0)
        },
        ScrollbarRegion::Settings => {
            proof {
                reveal_strlit("settings");
            }
            String::from_str("settings")
        },
        ScrollbarRegion::ShortcutSettings => {
            proof {
                reveal_strlit("shortcut-settings");
            }
            String::from_str("shortcut-settings")
        },
        ScrollbarRegion::Properties => {
            proof {
                reveal_strlit("properties");
            }
            String::from_str("properties")
        },
        ScrollbarRegion::OpenWithApplications => {
            proof {
                reveal_strlit("open-with-applications");
            }
            String::from_str("open-with-applications")
        },
        ScrollbarRegion::OperationQueue => {
            proof {
                reveal_strlit("operation-queue");
            }
            String::from_str("operation-queue")
        },
        ScrollbarRegion::BatchRenamePreview => {
            proof {
                reveal_strlit("batch-rename-preview");
            }
            String::from_str("batch-rename-preview")
        },
        ScrollbarRegion::SearchResults => {
            proof {
                reveal_strlit("search-results");
            }
            String::from_str("search-results")
        },
        ScrollbarRegion::PreviewDirectory => {
            proof {
                reveal_strlit("preview-directory");
            }
            String::from_str("preview-directory")
        },
        ScrollbarRegion::PreviewArchive => {
            proof {
                reveal_strlit("preview-archive");
            }
            String::from_str("preview-archive")
        },
        ScrollbarRegion::MarkdownPreview => {
            proof {
                reveal_strlit("markdown-preview");
            }
            String::from_str("markdown-preview")
        },
        ScrollbarRegion::TextPreview => {
            proof {
                reveal_strlit("text-preview");
            }
            String::from_str("text-preview")
        },
    }
}

impl FileBrowser {
    /// Shift turns vertical wheel motion sideways.
    pub fn smooth_scroll_shift_pressed(&self) -> (r: bool)
        ensures
            r == self.keyboard_modifiers.shift,
    {
        self.keyboard_modifiers.shift
    }
}

} // verus!
