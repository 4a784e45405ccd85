use vstd::prelude::*;

use crate::browser::FileBrowser;
use crate::drag::{FileDragState, WaylandFileDragTargetSnapshot};
use crate::fs_path::{FsPath, PathModel};
use crate::model::{
    DropTargetModel, FileDropTarget, SidebarBookmarkDropSlot, copy_opt_target, opt_path_view, opt_target_view,
};

verus! {

/// The directory a target drops into, if it is one.
pub open spec fn target_directory(target: Option<DropTargetModel>) -> Option<PathModel> {
    match target {
        Some(DropTargetModel::Directory(d)) => Some(d),
        _ => None,
    }
}

/// The bookmark slot a target is, if it is one.
pub open spec fn target_slot(target: Option<DropTargetModel>) -> Option<SidebarBookmarkDropSlot> {
    match target {
        Some(DropTargetModel::SidebarBookmarkSlot(slot)) => Some(slot),
        _ => None,
    }
}

impl FileBrowser {
    /// The pointer of the window's own desktop drag is over the window, at a
    /// place whose measured target, with the entry under it, is `resolved`;
    /// `over_sidebar` says whether that place lies on the sidebar's
    /// directories or bookmark list. The highlights follow: the entry, the
    /// sidebar row of a directory target on the sidebar, the paste directory
    /// of one elsewhere, the bookmark slot of a slot target. The drag and its
    /// desktop snapshot keep the target, and the snapshot the pointer.
    /// Returns the target.
    pub fn refresh_wayland_file_drag_target_at_position(
        &mut self,
        resolved: Option<(FileDropTarget, Option<FsPath>)>,
        over_sidebar: bool,
    ) -> (r: Option<FileDropTarget>)
        ensures
            ({
                let target = match resolved {
                    Some((t, _)) => Some(t@),
                    None => None,
                };
                let entry = match resolved {
                    Some((_, e)) => opt_path_view(e),
                    None => None,
                };
                &&& opt_target_view(r) == target
                &&& opt_path_view(final(self).hovered_entry) == entry
                &&& opt_path_view(final(self).hovered_sidebar) == if over_sidebar { target_directory(target) } else { None }
                &&& opt_path_view(final(self).cursor_paste_directory) == if over_sidebar {
                    None
                } else {
                    target_directory(target)
                }
                &&& final(self).sidebar_bookmark_drop_slot == target_slot(target)
                &&& match old(self).file_drag {
                    None => final(self).file_drag is None,
                    Some(drag) => final(self).file_drag matches Some(d) && {
                        &&& opt_target_view(d.target) == target
                        &&& match drag.wayland_target {
                            None => d == (FileDragState { target: d.target, ..drag }),
                            Some(w) => d.wayland_target matches Some(nw) && {
                                &&& opt_target_view(nw.target) == target
                                &&& nw == (WaylandFileDragTargetSnapshot { has_position: true, target: nw.target, ..w })
                                &&& d == (FileDragState { target: d.target, wayland_target: d.wayland_target, ..drag })
                            },
                        }
                    },
                }
                &&& *final(self) == (FileBrowser {
                    hovered_entry: final(self).hovered_entry,
                    hovered_sidebar: final(self).hovered_sidebar,
                    cursor_paste_directory: final(self).cursor_paste_directory,
                    sidebar_bookmark_drop_slot: final(self).sidebar_bookmark_drop_slot,
                    file_drag: final(self).file_drag,
                    ..*old(self)
                })
            }),
    {
        let (target, hovered_entry) = match resolved {
            Some((t, e)) => (Some(t), e),
            None => (None, None),
        };
        self.hovered_entry = hovered_entry;
        let (sidebar_row, paste_directory) = match &target {
            Some(FileDropTarget::Directory(directory)) => if over_sidebar {
                (Some(directory.copy()), None)
            } else {
                (None, Some(directory.copy()))
            },
            _ => (None, None),
        };
        self.hovered_sidebar = sidebar_row;
        self.cursor_paste_directory = paste_directory;
        self.sidebar_bookmark_drop_slot = match &target {
            Some(FileDropTarget::SidebarBookmarkSlot(slot)) => Some(*slot),
            _ => None,
        };
        if let Some(file_drag) = &mut self.file_drag {
            file_drag.target = copy_opt_target(&target);
            if let Some(snapshot) = &mut file_drag.wayland_target {
                snapshot.has_position = true;
                snapshot.target = copy_opt_target(&target);
            }
        }
        target
    }
}

} // verus!
