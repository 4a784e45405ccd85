use vstd::prelude::*;

use crate::browser::FileBrowser;
use crate::drag::paths_view;
use crate::file_drop::FileDropSessionPhase;
use crate::fs_path::{FsPath, PathModel, path_starts_with};
use crate::model::{BrowserPaneId, BrowserViewMode, FileDragDropIntent, opt_path_view};

verus! {

/// What the pointer hovers when a directory may spring open.
#[derive(Debug, Clone, Copy, PartialEq, Eq, Structural)]
pub enum FileDragSpringSource {
    Entry,
    Breadcrumb,
}

/// A directory hovered during a drag, timed to open when the hover lasts.
#[derive(Debug, Clone, PartialEq, Eq)]
pub struct FileDragSpringHover {
    pub directory: FsPath,
    pub pane_id: BrowserPaneId,
    pub source: FileDragSpringSource,
    /// Milliseconds on the application's monotonic clock.
    pub since: u64,
    pub fired: bool,
}


/// How long a hover lasts before the directory springs open, in milliseconds.
pub const FILE_DRAG_SPRING_OPEN_DELAY_MS: u64 = 500;

/// A drag is under way: an internal drag that moved far enough, or a drop
/// session that is hovering.
pub open spec fn spring_armed(browser: FileBrowser) -> bool {
    (browser.file_drag matches Some(d) && d.dragging())
        || (browser.file_drop_session matches Some(s) && s.phase == FileDropSessionPhase::Hovering)
}

/// Dropping onto `directory` would move a dragged item into itself or its
/// own subtree.
pub open spec fn spring_cycle_risk(sources: Seq<PathModel>, directory: PathModel) -> bool {
    exists|i: int| 0 <= i < sources.len() && (#[trigger] sources[i] == directory || path_starts_with(directory, sources[i]))
}

/// A directory may spring open unless a move into it would be a cycle;
/// copies and links may go into their own subtree.
pub open spec fn spring_open_allowed(browser: FileBrowser, directory: PathModel) -> bool {
    match browser.file_drag {
        None => true,
        Some(drag) => !spring_cycle_risk(paths_view(drag.sources@), directory) || browser.drop_intent(
            paths_view(drag.sources@),
            directory,
        ) != FileDragDropIntent::Move,
    }
}

/// A breadcrumb springs open outside the trash and when it is not the current directory.
pub open spec fn spring_breadcrumb_allowed(browser: FileBrowser, directory: PathModel) -> bool {
    !browser.is_trash_view && directory != browser.current_dir@
}

/// The hover is a spring candidate: on the active pane, while a drag is
/// under way, onto a directory that may spring open (a breadcrumb only
/// where breadcrumbs may).
pub open spec fn spring_candidate(browser: FileBrowser, pane_id: BrowserPaneId, directory: PathModel, source: FileDragSpringSource) -> bool {
    &&& pane_id == browser.active_pane()
    &&& spring_armed(browser)
    &&& spring_open_allowed(browser, directory)
    &&& (source == FileDragSpringSource::Breadcrumb ==> spring_breadcrumb_allowed(browser, directory))
}

/// What a spring tick asks of the window layer.
#[derive(Debug, Clone, PartialEq, Eq)]
pub enum SpringTickAction {
    /// Nothing is due.
    Wait,
    /// The drop areas are out of date and are to be measured again.
    Remeasure,
    /// Go to the breadcrumb's directory, recording history.
    Navigate(FsPath),
    /// Open the directory as the next column.
    OpenColumn(FsPath),
    /// Open the directory as if activated.
    Activate(FsPath),
}

impl FileBrowser {
    /// A drag is under way: see [`spring_armed`].
    pub fn file_drag_spring_is_armed(&self) -> (r: bool)
        ensures
            r == spring_armed(*self),
    {
        let dragging = match &self.file_drag {
            Some(drag) => drag.is_dragging(),
            None => false,
        };
        let hovering = match &self.file_drop_session {
            Some(session) => session.phase == FileDropSessionPhase::Hovering,
            None => false,
        };
        dragging || hovering
    }

    /// Whether `directory` may spring open: see [`spring_open_allowed`].
    pub fn file_drag_spring_open_allowed(&self, directory: &FsPath) -> (r: bool)
        ensures
            r == spring_open_allowed(*self, directory@),
    {
        let drag = match &self.file_drag {
            Some(drag) => drag,
            None => return true,
        };
        let ghost sv = paths_view(drag.sources@);
        let mut cycle_risk = false;
        let mut i: usize = 0;
        while i < drag.sources.len()
            invariant
                i <= drag.sources@.len(),
                sv == paths_view(drag.sources@),
                cycle_risk == exists|j: int| 0 <= j < i && (#[trigger] sv[j] == directory@ || path_starts_with(directory@, sv[j])),
            decreases drag.sources.len() - i,
        {
            let source = &drag.sources[i];
            let hit = source.same_path(directory) || directory.starts_with(source);
            proof {
                assert(sv[i as int] == source@);
                if cycle_risk {
                    let j = choose|j: int| 0 <= j < i && (#[trigger] sv[j] == directory@ || path_starts_with(directory@, sv[j]));
                    assert(0 <= j < i + 1);
                }
            }
            cycle_risk = cycle_risk || hit;
            i = i + 1;
        }
        !cycle_risk || self.file_drag_drop_intent(drag.sources.as_slice(), directory) != FileDragDropIntent::Move
    }

    /// Whether a breadcrumb may spring open: see [`spring_breadcrumb_allowed`].
    pub fn file_drag_spring_breadcrumb_allowed(&self, directory: &FsPath) -> (r: bool)
        ensures
            r == spring_breadcrumb_allowed(*self, directory@),
    {
        !self.is_trash_view && !directory.same_path(&self.current_dir)
    }

    /// Takes in the hovered directory, if any, at time `now` (milliseconds).
    /// A hover that is no candidate ([`spring_candidate`]) clears the timer;
    /// the same directory, pane and source keeps the running timer; anything
    /// else restarts it.
    pub fn note_file_drag_spring_hover(&mut self, hover: Option<(BrowserPaneId, FsPath, FileDragSpringSource)>, now: u64)
        ensures
            match hover {
                Some((pane_id, directory, source)) => if spring_candidate(*old(self), pane_id, directory@, source) {
                    if old(self).file_drag_spring_hover matches Some(c) && c.directory@ == directory@
                        && c.pane_id == pane_id && c.source == source {
                        *final(self) == *old(self)
                    } else {
                        final(self).file_drag_spring_hover matches Some(h) && h.directory@ == directory@
                            && h.pane_id == pane_id && h.source == source && h.since == now && !h.fired
                    }
                } else {
                    final(self).file_drag_spring_hover is None
                },
                None => final(self).file_drag_spring_hover is None,
            },
            *final(self) == (FileBrowser { file_drag_spring_hover: final(self).file_drag_spring_hover, ..*old(self) }),
    {
        let candidate = match hover {
            Some((pane_id, directory, source)) => {
                let allowed = pane_id == self.active_pane_id() && self.file_drag_spring_is_armed()
                    && self.file_drag_spring_open_allowed(&directory) && match source {
                    FileDragSpringSource::Entry => true,
                    FileDragSpringSource::Breadcrumb => self.file_drag_spring_breadcrumb_allowed(&directory),
                };
                if allowed {
                    Some(FileDragSpringHover { directory, pane_id, source, since: now, fired: false })
                } else {
                    None
                }
            },
            None => None,
        };
        let unchanged = match (&self.file_drag_spring_hover, &candidate) {
            (Some(current), Some(next)) => current.directory.same_path(&next.directory) && current.pane_id
                == next.pane_id && current.source == next.source,
            _ => false,
        };
        if !unchanged {
            self.file_drag_spring_hover = candidate;
        }
    }

    /// A spring tick at time `now` (milliseconds). Without a candidate
    /// nothing is due. Once the drag has ended the candidate goes. Out of
    /// date drop areas are measured again first. A candidate that fired,
    /// belongs to another pane or has not lasted the delay waits. Otherwise
    /// it fires once: a breadcrumb navigates, an entry opens as the next
    /// column in column view (the drag's column chain follows) or is
    /// activated elsewhere.
    pub fn handle_file_drag_spring_open_tick(&mut self, now: u64) -> (r: SpringTickAction)
        ensures
            match old(self).file_drag_spring_hover {
                None => r == SpringTickAction::Wait && *final(self) == *old(self),
                Some(current) => if !spring_armed(*old(self)) {
                    r == SpringTickAction::Wait && *final(self) == (FileBrowser {
                        file_drag_spring_hover: None,
                        ..*old(self)
                    })
                } else if old(self).file_drop_layout_stale {
                    r == SpringTickAction::Remeasure && *final(self) == (FileBrowser {
                        file_drop_layout_stale: false,
                        ..*old(self)
                    })
                } else if current.fired || current.pane_id != old(self).active_pane() || now < current.since
                    || now - current.since < FILE_DRAG_SPRING_OPEN_DELAY_MS {
                    r == SpringTickAction::Wait && *final(self) == *old(self)
                } else {
                    &&& final(self).file_drag_spring_hover == Some(FileDragSpringHover { fired: true, ..current })
                    &&& match current.source {
                        FileDragSpringSource::Breadcrumb => r matches SpringTickAction::Navigate(d) && d@ == current.directory@,
                        FileDragSpringSource::Entry => if old(self).view_mode == BrowserViewMode::Columns {
                            r matches SpringTickAction::OpenColumn(d) && d@ == current.directory@
                                && opt_path_view(final(self).deepest_open_column_directory) == Some(current.directory@)
                        } else {
                            r matches SpringTickAction::Activate(d) && d@ == current.directory@
                        },
                    }
                },
            },
    {
        let current = match &self.file_drag_spring_hover {
            Some(current) => current,
            None => return SpringTickAction::Wait,
        };
        if !self.file_drag_spring_is_armed() {
            self.file_drag_spring_hover = None;
            return SpringTickAction::Wait;
        }
        if self.file_drop_layout_stale {
            self.file_drop_layout_stale = false;
            return SpringTickAction::Remeasure;
        }
        if current.fired || current.pane_id != self.active_pane_id() || now < current.since || now - current.since
            < FILE_DRAG_SPRING_OPEN_DELAY_MS {
            return SpringTickAction::Wait;
        }
        let mut fired = match self.file_drag_spring_hover.take() {
            Some(hover) => hover,
            None => return SpringTickAction::Wait,
        };
        fired.fired = true;
        let directory = fired.directory.copy();
        let source = fired.source;
        let pane_id = fired.pane_id;
        self.file_drag_spring_hover = Some(fired);
        match source {
            FileDragSpringSource::Breadcrumb => SpringTickAction::Navigate(directory),
            FileDragSpringSource::Entry => if self.view_mode == BrowserViewMode::Columns {
                self.deepest_open_column_directory = Some(directory.copy());
                self.refresh_file_drag_column_chain_snapshot(pane_id);
                SpringTickAction::OpenColumn(directory)
            } else {
                SpringTickAction::Activate(directory)
            },
        }
    }
}

/// The directories from `base` down to `deepest`, each one level deeper,
/// when `deepest` lies below `base`; none otherwise.
pub open spec fn chain_below(base: PathModel, deepest: PathModel) -> Seq<PathModel> {
    if path_starts_with(deepest, base) && deepest.parts.len() > base.parts.len() {
        Seq::new(
            (deepest.parts.len() - base.parts.len()) as nat,
            |k: int| PathModel { absolute: deepest.absolute, parts: deepest.parts.take(base.parts.len() + k + 1) },
        )
    } else {
        Seq::empty()
    }
}

/// The directories a pane's columns show: the current directory, then each
/// directory down to the deepest open column.
pub open spec fn column_chain(current: PathModel, deepest: Option<PathModel>) -> Seq<PathModel> {
    seq![current] + match deepest {
        Some(d) => chain_below(current, d),
        None => Seq::empty(),
    }
}

impl FileBrowser {
    /// The active tab of pane `pane_id`: the browser's for the active pane,
    /// the stored pane's (the first with its id) otherwise.
    pub open spec fn pane_active_tab(&self, pane_id: BrowserPaneId) -> Option<usize> {
        if pane_id == self.active_pane() {
            Some(self.active_tab_id)
        } else {
            match crate::panes::pane_ids(crate::tab_state::panes_view(self.panes@)).index_of_first(pane_id) {
                Some(j) => Some(self.panes@[j].active_tab_id),
                None => None,
            }
        }
    }

    /// During a drag from a column view, the drag keeps the column chain it
    /// started with. When a directory springs open at the end of the chain
    /// of the drag's own pane and tab, the kept chain becomes the current
    /// one ([`column_chain`]). Anything else is left as it was.
    pub fn refresh_file_drag_column_chain_snapshot(&mut self, pane_id: BrowserPaneId)
        ensures
            ({
                let applies = old(self).pane_active_tab(pane_id) is Some && (old(self).file_drag matches Some(d)
                    && d.source_pane_id == pane_id && Some(d.source_tab_id) == old(self).pane_active_tab(pane_id)
                    && d.column_directories_snapshot@.len() > 0);
                &&& !applies ==> *final(self) == *old(self)
                &&& applies ==> (final(self).file_drag matches Some(f) && paths_view(f.column_directories_snapshot@)
                    == column_chain(old(self).current_dir@, opt_path_view(old(self).deepest_open_column_directory)))
                &&& *final(self) == (FileBrowser { file_drag: final(self).file_drag, ..*old(self) })
            }),
    {
        let tab = if pane_id == self.active_pane_id() {
            Some(self.active_tab_id)
        } else {
            let found = crate::panes::pane_index(&self.panes, pane_id);
            proof {
                crate::panes::pane_ids(crate::tab_state::panes_view(self.panes@)).index_of_first_ensures(pane_id);
            }
            match found {
                Some(j) => Some(self.panes[j].active_tab_id),
                None => None,
            }
        };
        let applies = match (&self.file_drag, tab) {
            (Some(drag), Some(tab_id)) => drag.source_pane_id == pane_id && drag.source_tab_id == tab_id
                && drag.column_directories_snapshot.len() > 0,
            _ => false,
        };
        if !applies {
            return;
        }
        let mut chain: Vec<FsPath> = Vec::new();
        chain.push(self.current_dir.copy());
        proof {
            assert(paths_view(chain@) =~= seq![self.current_dir@]);
        }
        if let Some(deepest) = &self.deepest_open_column_directory {
            if deepest.starts_with(&self.current_dir) && deepest.component_count() > self.current_dir.component_count() {
                let base = self.current_dir.component_count();
                let ghost below = chain_below(self.current_dir@, deepest@);
                let mut k: usize = base;
                while k < deepest.component_count()
                    invariant
                        base <= k <= deepest@.parts.len(),
                        base == self.current_dir@.parts.len(),
                        below == chain_below(self.current_dir@, deepest@),
                        path_starts_with(deepest@, self.current_dir@),
                        deepest@.parts.len() > base,
                        paths_view(chain@) == seq![self.current_dir@] + below.take(k - base),
                    decreases deepest@.parts.len() - k,
                {
                    let ghost before = paths_view(chain@);
                    chain.push(deepest.prefix(k + 1));
                    proof {
                        assert(below[k - base] == PathModel { absolute: deepest@.absolute, parts: deepest@.parts.take(k + 1) });
                        assert(below.take(k + 1 - base) =~= below.take(k - base).push(below[k - base]));
                        assert(paths_view(chain@) =~= before.push(below[k - base]));
                    }
                    k = k + 1;
                }
                proof {
                    assert(below.take(k - base) =~= below);
                }
            }
        }
        match &mut self.file_drag {
            Some(drag) => {
                drag.column_directories_snapshot = chain;
            },
            None => {},
        }
    }
}
} // verus!
