use vstd::prelude::*;

use crate::browser::FileBrowser;
use crate::deletion::external_drop_placed;
use crate::drag::{paths_view, same_paths};
use crate::file_drop::{FileClipboardSelection, drop_target_set, next_generation};
use crate::fs_path::FsPath;

verus! {

/// Where the files of a Wayland drop come from.
#[derive(Debug, Clone, Copy, PartialEq, Eq, Structural)]
pub enum WaylandDropOrigin {
    /// Another application.
    External,
    /// A drag that started in this window.
    Internal,
}

/// The files of a Wayland drop, where they come from, and the drop point:
/// the bit patterns of its two window coordinates, which only the window
/// reads, when the desktop gave one.
#[derive(Debug, Clone, PartialEq, Eq)]
pub struct WaylandFileDrop {
    pub selection: FileClipboardSelection,
    pub origin: WaylandDropOrigin,
    pub position_bits: Option<(u32, u32)>,
}

/// A Wayland drop that waits for the breadcrumb drop areas to be measured:
/// only the measurement of generation `measurement_generation` places it.
#[derive(Debug, Clone, PartialEq, Eq)]
pub struct PendingWaylandFileDrop {
    pub measurement_generation: u64,
    pub drop: WaylandFileDrop,
}

/// What a measurement of the breadcrumb drop areas leads to.
#[derive(Debug, Clone, PartialEq, Eq)]
pub enum BreadcrumbBoundsOutcome {
    /// A newer measurement was asked for since: this one is dropped.
    Stale,
    /// The measured areas are the current ones; keep them.
    Measured,
    /// The measured areas are the current ones, and the drop that waited for
    /// them is released: place it with them.
    MeasuredWithDrop(WaylandFileDrop),
}

/// `after` and `g` are `before` once the Wayland drop `drop` waits for a new
/// breadcrumb measurement, of generation `g`, as
/// [`FileBrowser::measure_wayland_file_drop_target`] starts it.
pub open spec fn wayland_drop_pending(before: FileBrowser, after: FileBrowser, drop: WaylandFileDrop, g: u64) -> bool {
    &&& g == next_generation(before.breadcrumb_drop_target_measurement_generation)
    &&& after == (FileBrowser {
        breadcrumb_drop_target_measurement_generation: g,
        pending_wayland_file_drop: Some(PendingWaylandFileDrop { measurement_generation: g, drop }),
        ..before
    })
}

/// `after` and `r` are `before` once a breadcrumb measurement of generation
/// `generation` arrived, as [`FileBrowser::accept_breadcrumb_drop_target_bounds`]
/// takes it: only the measurement of the current generation counts, and it
/// releases the pending drop that waited for that generation.
pub open spec fn breadcrumb_bounds_accepted(
    before: FileBrowser,
    after: FileBrowser,
    generation: u64,
    r: BreadcrumbBoundsOutcome,
) -> bool {
    if generation != before.breadcrumb_drop_target_measurement_generation {
        r == BreadcrumbBoundsOutcome::Stale && after == before
    } else if before.pending_wayland_file_drop matches Some(p) && p.measurement_generation == generation {
        &&& r == BreadcrumbBoundsOutcome::MeasuredWithDrop(before.pending_wayland_file_drop.unwrap().drop)
        &&& after == (FileBrowser { pending_wayland_file_drop: None, ..before })
    } else {
        r == BreadcrumbBoundsOutcome::Measured && after == before
    }
}

impl FileBrowser {
    /// The Wayland drop `drop` waits for the breadcrumb drop areas to be
    /// measured afresh; returns the generation of the measurement to run.
    /// A drop that waited before is replaced.
    pub fn measure_wayland_file_drop_target(&mut self, drop: WaylandFileDrop) -> (g: u64)
        ensures
            wayland_drop_pending(*old(self), *final(self), drop, g),
    {
        let generation = self.next_breadcrumb_drop_target_measurement_generation();
        self.pending_wayland_file_drop = Some(PendingWaylandFileDrop { measurement_generation: generation, drop });
        generation
    }

    /// The files of a Wayland drop were read, or reading them failed with
    /// `error`. Read files wait for a breadcrumb measurement, whose generation
    /// is returned; a failure drops any waiting drop, makes every running
    /// measurement stale and shows the error.
    pub fn accept_wayland_file_drop_result(&mut self, result: Result<WaylandFileDrop, String>) -> (r: Option<u64>)
        ensures
            match result {
                Ok(drop) => r matches Some(g) && wayland_drop_pending(*old(self), *final(self), drop, g),
                Err(error) => r is None && *final(self) == (FileBrowser {
                    pending_wayland_file_drop: None,
                    breadcrumb_drop_target_measurement_generation:
                        next_generation(old(self).breadcrumb_drop_target_measurement_generation),
                    error: Some(error),
                    ..*old(self)
                }),
            },
    {
        match result {
            Ok(drop) => Some(self.measure_wayland_file_drop_target(drop)),
            Err(error) => {
                self.pending_wayland_file_drop = None;
                self.next_breadcrumb_drop_target_measurement_generation();
                self.error = Some(error);
                None
            },
        }
    }

    /// Asks for the breadcrumb drop areas to be measured; returns the
    /// generation to measure, or `None` while a drop waits for a measurement
    /// already under way.
    pub fn request_breadcrumb_drop_target_bounds_measurement(&mut self) -> (r: Option<u64>)
        ensures
            old(self).pending_wayland_file_drop is Some ==> r is None && *final(self) == *old(self),
            old(self).pending_wayland_file_drop is None ==> {
                &&& r == Some(next_generation(old(self).breadcrumb_drop_target_measurement_generation))
                &&& *final(self) == (FileBrowser {
                    breadcrumb_drop_target_measurement_generation: r.unwrap(),
                    ..*old(self)
                })
            },
    {
        if self.pending_wayland_file_drop.is_some() {
            return None;
        }
        Some(self.next_breadcrumb_drop_target_measurement_generation())
    }

    /// A measurement of the breadcrumb drop areas of generation `generation`
    /// arrived. A stale one is ignored; a current one is kept, and releases
    /// the drop that waited for it.
    pub fn accept_breadcrumb_drop_target_bounds(&mut self, generation: u64) -> (r: BreadcrumbBoundsOutcome)
        ensures
            breadcrumb_bounds_accepted(*old(self), *final(self), generation, r),
    {
        if generation != self.breadcrumb_drop_target_measurement_generation {
            return BreadcrumbBoundsOutcome::Stale;
        }
        let matches = match &self.pending_wayland_file_drop {
            Some(pending) => pending.measurement_generation == generation,
            None => false,
        };
        if !matches {
            return BreadcrumbBoundsOutcome::Measured;
        }
        let pending = self.pending_wayland_file_drop.take().unwrap();
        BreadcrumbBoundsOutcome::MeasuredWithDrop(pending.drop)
    }
}

/// Where a measured Wayland drop went.
#[derive(Debug, Clone, PartialEq, Eq)]
pub enum WaylandDropPlacement {
    /// Files from another application: whether the drop prompt opened.
    Prompted(bool),
    /// Files from this window that are not its drag under way: nothing happens.
    Ignored,
    /// This window's drag under way ends, released over the directory given,
    /// if any; the drag selection finishes there.
    FinishDrag(Option<FsPath>),
}

impl FileBrowser {
    /// Places a Wayland drop whose breadcrumb areas were measured. The window
    /// answers from that measurement: `directory_at_position` is the
    /// directory under the drop point, `over_pane` whether a pane is under
    /// it, `beyond_sidebar` whether it lies right of the sidebar (the bookmark
    /// slot under the point is the window's to refresh first). Outside files
    /// go as [`FileBrowser::accept_external_wayland_file_drop`] takes them.
    /// This window's own files count only as the drag under way, with the
    /// same files: that drag ends over the directory under the point, and a
    /// drop with a point over no directory right of the sidebar first clears
    /// its target ([`FileBrowser::clear_file_drag_target`]).
    pub fn place_measured_wayland_file_drop(
        &mut self,
        drop: WaylandFileDrop,
        directory_at_position: Option<FsPath>,
        over_pane: bool,
        beyond_sidebar: bool,
    ) -> (r: WaylandDropPlacement)
        ensures
            ({
                let has_position = drop.position_bits is Some;
                let directory = if has_position { directory_at_position } else { None };
                match drop.origin {
                    WaylandDropOrigin::External => r matches WaylandDropPlacement::Prompted(opened)
                        && external_drop_placed(*old(self), *final(self), directory, has_position, over_pane,
                            drop.selection.paths, opened),
                    WaylandDropOrigin::Internal => if old(self).file_drag matches Some(d) && d.dragging()
                        && paths_view(d.sources@) == paths_view(drop.selection.paths@) {
                        &&& r == WaylandDropPlacement::FinishDrag(directory)
                        &&& if has_position && directory is None && beyond_sidebar {
                            drop_target_set(*old(self), *final(self), None)
                        } else {
                            *final(self) == *old(self)
                        }
                    } else {
                        r == WaylandDropPlacement::Ignored && *final(self) == *old(self)
                    },
                }
            }),
    {
        let has_position = drop.position_bits.is_some();
        let directory = if has_position { directory_at_position } else { None };
        match drop.origin {
            WaylandDropOrigin::External => {
                let opened = self.accept_external_wayland_file_drop(directory, has_position, over_pane, drop.selection.paths);
                WaylandDropPlacement::Prompted(opened)
            },
            WaylandDropOrigin::Internal => {
                let matches = match &self.file_drag {
                    Some(drag) => drag.is_dragging() && same_paths(drag.sources.as_slice(), drop.selection.paths.as_slice()),
                    None => false,
                };
                if !matches {
                    return WaylandDropPlacement::Ignored;
                }
                if has_position && directory.is_none() && beyond_sidebar {
                    self.clear_file_drag_target();
                }
                WaylandDropPlacement::FinishDrag(directory)
            },
        }
    }
}

/// A Wayland drop waits for the breadcrumb measurement started for it: a
/// measurement of any other generation leaves it waiting and changes
/// nothing, and the measurement of its own generation releases exactly that
/// drop.
pub proof fn lemma_only_its_own_measurement_releases_a_wayland_drop(
    before: FileBrowser,
    pending: FileBrowser,
    measured: FileBrowser,
    drop: WaylandFileDrop,
    g: u64,
    generation: u64,
    r: BreadcrumbBoundsOutcome,
)
    requires
        wayland_drop_pending(before, pending, drop, g),
        breadcrumb_bounds_accepted(pending, measured, generation, r),
    ensures
        generation != g ==> r == BreadcrumbBoundsOutcome::Stale && measured == pending
            && measured.pending_wayland_file_drop == Some(PendingWaylandFileDrop { measurement_generation: g, drop }),
        generation == g ==> r == BreadcrumbBoundsOutcome::MeasuredWithDrop(drop)
            && measured.pending_wayland_file_drop is None,
{
}

} // verus!
