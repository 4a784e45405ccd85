use vstd::prelude::*;

use crate::browser::FileBrowser;
use crate::drag::{copy_paths, paths_view};
use crate::fs_path::{FsPath, PathModel};

verus! {

/// Where a selection marquee was started.
#[derive(Debug, Clone, PartialEq, Eq)]
pub enum SelectionMarqueeSource {
    /// The blank area of a pane.
    PaneBlank,
    /// The blank area below the entries of a column.
    ColumnBlank { directory: FsPath },
    /// The panel of an expanded icon-grid folder.
    IconGridPanel { directory: FsPath },
}

/// Whether the pointer has moved far enough for a marquee to select.
#[derive(Debug, Clone, Copy, PartialEq, Eq, Structural)]
pub enum SelectionMarqueePhase {
    WaitingForMovement,
    Selecting,
}

/// A selection marquee under way: where it started, its phase, the
/// selection it started from, and whether that selection is kept (Control
/// held). Its points and scroll anchor are window geometry, which the window
/// keeps beside it.
#[derive(Debug, Clone, PartialEq, Eq)]
pub struct SelectionMarquee {
    pub source: SelectionMarqueeSource,
    pub phase: SelectionMarqueePhase,
    pub base_selection: Vec<FsPath>,
    pub preserve_existing: bool,
}

/// What starting a marquee did.
#[derive(Debug, Clone, Copy, PartialEq, Eq, Structural)]
pub enum MarqueeStart {
    /// A rename was in progress: it is to be committed, and nothing started.
    CommitRename,
    /// The marquee started.
    Started,
}

/// A range of entries for a drag selection to select, from `anchor` to
/// `target`, keeping the selection there was when `preserve_existing`.
#[derive(Debug, Clone, PartialEq, Eq)]
pub struct DragSelectionRange {
    pub anchor: FsPath,
    pub target: FsPath,
    pub preserve_existing: bool,
}

/// `after` is `before` once a marquee from `source` started, as
/// [`FileBrowser::start_selection_marquee_from`] starts it, with
/// `column_context` the directory a column click selects, if any.
pub open spec fn marquee_started(
    before: FileBrowser,
    after: FileBrowser,
    source: SelectionMarqueeSource,
    column_context: Option<PathModel>,
) -> bool {
    let preserve = before.keyboard_modifiers.control;
    &&& after == (FileBrowser {
        preview: None,
        context_menu: None,
        drag_selection_anchor: None,
        file_drag: None,
        file_drop_session: None,
        hovered_entry: None,
        hovered_sidebar: None,
        sidebar_bookmark_drop_slot: None,
        cursor_paste_directory: None,
        deepest_open_column_directory: if source is PaneBlank && !preserve {
            None
        } else {
            before.deepest_open_column_directory
        },
        selected: after.selected,
        selected_paths: after.selected_paths,
        selection_marquee: after.selection_marquee,
        ..before
    })
    &&& preserve ==> after.selected == before.selected && after.selected_paths == before.selected_paths
    &&& !preserve ==> match column_context {
        Some(d) => (after.selected matches Some(p) && p@ == d) && paths_view(after.selected_paths@) == seq![d],
        None => after.selected is None && after.selected_paths@.len() == 0,
    }
    &&& after.selection_marquee matches Some(m)
    &&& m.source == source
    &&& m.phase == SelectionMarqueePhase::WaitingForMovement
    &&& paths_view(m.base_selection@) == paths_view(before.selected_paths@)
    &&& m.preserve_existing == preserve
}

impl FileBrowser {
    /// Closes the preview and the context menu and ends the drag anchor and
    /// any file drag, as a new marquee does.
    fn end_interactions_for_marquee(&mut self)
        ensures
            *final(self) == (FileBrowser {
                preview: None,
                context_menu: None,
                drag_selection_anchor: None,
                file_drag: None,
                file_drop_session: None,
                hovered_entry: None,
                hovered_sidebar: None,
                sidebar_bookmark_drop_slot: None,
                cursor_paste_directory: None,
                ..*old(self)
            }),
    {
        self.preview = None;
        self.context_menu = None;
        self.drag_selection_anchor = None;
        self.cancel_file_drag_interaction();
    }

    /// The selection a marquee starts from without Control: the column
    /// context directory, or nothing; a marquee on a pane's blank area also
    /// closes the deepest open column.
    fn select_marquee_context(&mut self, pane_blank: bool, column_context_directory: Option<FsPath>)
        ensures
            *final(self) == (FileBrowser {
                deepest_open_column_directory: if pane_blank { None } else { old(self).deepest_open_column_directory },
                selected: final(self).selected,
                selected_paths: final(self).selected_paths,
                ..*old(self)
            }),
            match column_context_directory {
                Some(d) => (final(self).selected matches Some(p) && p@ == d@)
                    && paths_view(final(self).selected_paths@) == seq![d@],
                None => final(self).selected is None && final(self).selected_paths@.len() == 0,
            },
    {
        if pane_blank {
            self.deepest_open_column_directory = None;
        }
        match column_context_directory {
            Some(directory) => {
                let mut paths: Vec<FsPath> = Vec::new();
                paths.push(directory.copy());
                proof {
                    assert(paths_view(paths@) =~= seq![directory@]);
                }
                self.selected = Some(directory);
                self.selected_paths = paths;
            },
            None => {
                self.selected = None;
                self.selected_paths = Vec::new();
            },
        }
    }

    /// Starts a selection marquee from `source`; `column_context_directory`
    /// is the directory that a click on that column's blank area selects,
    /// if any. While a rename is in progress nothing starts: the rename is
    /// to be committed. Otherwise the preview and the context menu close, the
    /// drag anchor and any file drag end, and, unless Control is held, a
    /// marquee on a pane's blank area closes the deepest open column and the
    /// selection becomes the column context directory, or nothing. The
    /// marquee starts waiting for movement, from the selection there was.
    pub fn start_selection_marquee_from(
        &mut self,
        source: SelectionMarqueeSource,
        column_context_directory: Option<FsPath>,
    ) -> (r: MarqueeStart)
        ensures
            old(self).surfaces.renaming ==> r == MarqueeStart::CommitRename && *final(self) == *old(self),
            !old(self).surfaces.renaming ==> r == MarqueeStart::Started && marquee_started(
                *old(self),
                *final(self),
                source,
                match column_context_directory {
                    Some(d) => Some(d@),
                    None => None,
                },
            ),
    {
        if self.surfaces.renaming {
            return MarqueeStart::CommitRename;
        }
        self.end_interactions_for_marquee();
        let preserve_existing = self.keyboard_modifiers.control;
        let base_selection = copy_paths(self.selected_paths.as_slice());
        let pane_blank = match &source {
            SelectionMarqueeSource::PaneBlank => true,
            _ => false,
        };
        if !preserve_existing {
            self.select_marquee_context(pane_blank, column_context_directory);
        }
        self.selection_marquee = Some(SelectionMarquee {
            source,
            phase: SelectionMarqueePhase::WaitingForMovement,
            base_selection,
            preserve_existing,
        });
        MarqueeStart::Started
    }

    /// The drag selection reaches `path`: it selects the range from its
    /// anchor to `path`, keeping the selection there was while Control is
    /// held. Without an anchor, a marquee under way anchors at `path`;
    /// otherwise nothing is selected. Returns the range to select.
    pub fn extend_drag_selection_to(&mut self, path: FsPath) -> (r: Option<DragSelectionRange>)
        ensures
            match old(self).drag_selection_anchor {
                Some(anchor) => *final(self) == *old(self) && (r matches Some(range) && range.anchor@ == anchor@
                    && range.target == path && range.preserve_existing == old(self).keyboard_modifiers.control),
                None => if old(self).selection_marquee is Some {
                    &&& *final(self) == (FileBrowser { drag_selection_anchor: final(self).drag_selection_anchor, ..*old(self) })
                    &&& final(self).drag_selection_anchor matches Some(a) && a@ == path@
                    &&& r matches Some(range) && range.anchor@ == path@ && range.target == path
                        && range.preserve_existing == old(self).keyboard_modifiers.control
                } else {
                    *final(self) == *old(self) && r is None
                },
            },
    {
        let preserve_existing = self.keyboard_modifiers.control;
        match &self.drag_selection_anchor {
            Some(anchor) => {
                return Some(DragSelectionRange { anchor: anchor.copy(), target: path, preserve_existing });
            },
            None => {},
        }
        if self.selection_marquee.is_none() {
            return None;
        }
        self.drag_selection_anchor = Some(path.copy());
        Some(DragSelectionRange { anchor: path.copy(), target: path, preserve_existing })
    }
}

} // verus!
