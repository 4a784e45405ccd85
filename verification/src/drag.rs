use vstd::prelude::*;

use crate::fs_path::{FsPath, PathModel, path_parent, path_starts_with, path_file_name, path_text_of};
use crate::model::{DropTargetModel, FileDragDropIntent, FileDropTarget, opt_path_view, opt_target_view};

verus! {

/// The views of a sequence of paths.
pub open spec fn paths_view(paths: Seq<FsPath>) -> Seq<PathModel> {
    paths.map_values(|p: FsPath| p@)
}

/// Moving `source` into `target` would leave it where it is (its parent is
/// the target) or would move a directory into itself or its own subtree.
pub open spec fn is_no_op_move(source: PathModel, target: PathModel) -> bool {
    path_parent(source) == Some(target) || path_starts_with(target, source)
}

/// Some source cannot usefully be moved into `target`.
pub open spec fn directory_target_needs_fallback(sources: Seq<PathModel>, target: PathModel) -> bool {
    exists|i: int| 0 <= i < sources.len() && is_no_op_move(#[trigger] sources[i], target)
}

/// The drop target of a finished in-window drag: the directory under the
/// released pointer wins; a hovered directory that some source cannot move
/// into gives way to the fallback directory when there is one; a hovered
/// trash, tab or bookmark slot is kept; with nothing hovered the fallback
/// directory is used.
pub open spec fn resolved_drag_target(
    sources: Seq<PathModel>,
    release_directory: Option<PathModel>,
    target: Option<DropTargetModel>,
    fallback_directory: Option<PathModel>,
) -> Option<DropTargetModel> {
    match release_directory {
        Some(release) => Some(DropTargetModel::Directory(release)),
        None => match target {
            Some(DropTargetModel::Directory(d)) => if directory_target_needs_fallback(sources, d) {
                match fallback_directory {
                    Some(f) => Some(DropTargetModel::Directory(f)),
                    None => Some(DropTargetModel::Directory(d)),
                }
            } else {
                Some(DropTargetModel::Directory(d))
            },
            Some(other) => Some(other),
            None => match fallback_directory {
                Some(f) => Some(DropTargetModel::Directory(f)),
                None => None,
            },
        },
    }
}

/// A directory target that some source cannot move into is no target.
pub open spec fn safe_target(sources: Seq<PathModel>, target: Option<DropTargetModel>) -> Option<DropTargetModel> {
    match target {
        Some(DropTargetModel::Directory(d)) => if directory_target_needs_fallback(sources, d) {
            None
        } else {
            target
        },
        _ => target,
    }
}

/// The name shown for a drop directory: its last component, or its whole
/// text when it has none (the root directory).
pub open spec fn shown_directory_name(directory: PathModel) -> Seq<char> {
    match path_file_name(directory) {
        Some(name) => name,
        None => path_text_of(directory),
    }
}

/// Moving `source` into `target` changes nothing or would be a cycle.
pub fn move_is_no_op(source: &FsPath, target: &FsPath) -> (r: bool)
    ensures
        r == is_no_op_move(source@, target@),
{
    let parent_is_target = match source.parent() {
        Some(parent) => parent.same_path(target),
        None => false,
    };
    parent_is_target || target.starts_with(source)
}

/// Some source cannot usefully be moved into `target`.
pub fn file_drag_directory_target_needs_fallback(sources: &[FsPath], target: &FsPath) -> (r: bool)
    ensures
        r == directory_target_needs_fallback(paths_view(sources@), target@),
{
    let ghost sv = paths_view(sources@);
    let mut i: usize = 0;
    while i < sources.len()
        invariant
            i <= sources.len(),
            sv == paths_view(sources@),
            forall|j: int| 0 <= j < i ==> !is_no_op_move(#[trigger] sv[j], target@),
        decreases sources.len() - i,
    {
        if move_is_no_op(&sources[i], target) {
            assert(is_no_op_move(sv[i as int], target@));
            return true;
        }
        i = i + 1;
    }
    false
}

/// Where a finished in-window drag drops: see [`resolved_drag_target`].
pub fn resolve_file_drag_target(
    sources: &[FsPath],
    release_directory: Option<FsPath>,
    target: Option<FileDropTarget>,
    fallback_directory: Option<FsPath>,
) -> (r: Option<FileDropTarget>)
    ensures
        opt_target_view(r) == resolved_drag_target(
            paths_view(sources@),
            opt_path_view(release_directory),
            opt_target_view(target),
            opt_path_view(fallback_directory),
        ),
{
    if let Some(release_directory) = release_directory {
        return Some(FileDropTarget::Directory(release_directory));
    }
    match target {
        Some(FileDropTarget::Directory(target_directory)) => {
            if file_drag_directory_target_needs_fallback(sources, &target_directory) {
                match fallback_directory {
                    Some(fallback) => Some(FileDropTarget::Directory(fallback)),
                    None => Some(FileDropTarget::Directory(target_directory)),
                }
            } else {
                Some(FileDropTarget::Directory(target_directory))
            }
        },
        Some(other) => Some(other),
        None => match fallback_directory {
            Some(fallback) => Some(FileDropTarget::Directory(fallback)),
            None => None,
        },
    }
}

/// Drops a directory target that some source cannot move into.
pub fn safe_file_drop_target(sources: &[FsPath], target: Option<FileDropTarget>) -> (r: Option<FileDropTarget>)
    ensures
        opt_target_view(r) == safe_target(paths_view(sources@), opt_target_view(target)),
{
    match target {
        Some(FileDropTarget::Directory(directory)) => {
            if file_drag_directory_target_needs_fallback(sources, &directory) {
                None
            } else {
                Some(FileDropTarget::Directory(directory))
            }
        },
        other => other,
    }
}

/// The name shown for a drop directory.
pub fn display_directory_name(directory: &FsPath) -> (r: String)
    ensures
        r@ == shown_directory_name(directory@),
{
    match directory.file_name() {
        Some(name) => name,
        None => directory.path_text(),
    }
}

/// The action label for a drop of the given intent into `directory`.
pub fn file_drag_transfer_label(intent: FileDragDropIntent, directory: &FsPath) -> (r: String)
    ensures
        r@ == match intent {
            FileDragDropIntent::Copy => "Copy to "@,
            FileDragDropIntent::CreateLink => "Create link to "@,
            FileDragDropIntent::Move => "Move to "@,
        } + shown_directory_name(directory@),
{
    let name = display_directory_name(directory);
    let mut label = match intent {
        FileDragDropIntent::Copy => String::from_str("Copy to "),
        FileDragDropIntent::CreateLink => String::from_str("Create link to "),
        FileDragDropIntent::Move => String::from_str("Move to "),
    };
    label.append(name.as_str());
    label
}


/// Whether a pressed file has moved far enough to become a drag.
#[derive(Debug, Clone, Copy, PartialEq, Eq, Structural)]
pub enum FileDragPhase {
    WaitingForMovement,
    Dragging,
}

/// What releasing a press that never became a drag does.
#[derive(Debug, Clone, Copy, PartialEq, Eq, Structural)]
pub enum FileDragStationaryAction {
    SelectionOnly,
    ActivateColumnEntry,
}

/// Whether the drag has been handed to the desktop's drag-and-drop.
#[derive(Debug, Clone, Copy, PartialEq, Eq, Structural)]
pub enum FileDragNativeDndState {
    NotRequested,
    /// Asked of the desktop, by session number.
    Requested(u64),
    /// The desktop started the drag.
    Started(u64),
    /// The desktop reported the drop.
    Dropped(u64),
}

impl FileDragNativeDndState {
    /// The desktop session number, once requested.
    pub open spec fn session_id_of(self) -> Option<u64> {
        match self {
            FileDragNativeDndState::Requested(id) => Some(id),
            FileDragNativeDndState::Started(id) => Some(id),
            FileDragNativeDndState::Dropped(id) => Some(id),
            FileDragNativeDndState::NotRequested => None,
        }
    }

    /// The desktop session number, once requested.
    pub fn session_id(&self) -> (r: Option<u64>)
        ensures
            r == self.session_id_of(),
    {
        match self {
            FileDragNativeDndState::Requested(id) => Some(*id),
            FileDragNativeDndState::Started(id) => Some(*id),
            FileDragNativeDndState::Dropped(id) => Some(*id),
            FileDragNativeDndState::NotRequested => None,
        }
    }
}

/// The target seen by the desktop drag session and whether its pointer is known.
#[derive(Debug, Clone, PartialEq, Eq)]
pub struct WaylandFileDragTargetSnapshot {
    pub session_id: u64,
    pub has_position: bool,
    pub target: Option<FileDropTarget>,
}

/// A press on selected files that may become a drag.
#[derive(Debug, Clone, PartialEq, Eq)]
pub struct FileDragState {
    pub gesture_id: u64,
    pub source_pane_id: crate::model::BrowserPaneId,
    pub source_tab_id: usize,
    pub sources: Vec<FsPath>,
    pub pressed_path: FsPath,
    pub bookmark_source: Option<FsPath>,
    pub stationary_action: FileDragStationaryAction,
    pub phase: FileDragPhase,
    pub native_dnd: FileDragNativeDndState,
    pub column_directories_snapshot: Vec<FsPath>,
    pub target: Option<FileDropTarget>,
    pub wayland_target: Option<WaylandFileDragTargetSnapshot>,
}

impl FileDragState {
    /// The press has moved far enough to drag.
    pub open spec fn dragging(self) -> bool {
        self.phase == FileDragPhase::Dragging
    }

    /// The press has moved far enough to drag.
    pub fn is_dragging(&self) -> (r: bool)
        ensures
            r == self.dragging(),
    {
        self.phase == FileDragPhase::Dragging
    }
}

/// A copy of a list of paths.
pub fn copy_paths(paths: &[FsPath]) -> (r: Vec<FsPath>)
    ensures
        paths_view(r@) == paths_view(paths@),
{
    let mut r: Vec<FsPath> = Vec::new();
    let mut i: usize = 0;
    while i < paths.len()
        invariant
            i <= paths.len(),
            r@.len() == i,
            forall|j: int| 0 <= j < i ==> (#[trigger] r@[j])@ == paths@[j]@,
        decreases paths.len() - i,
    {
        r.push(paths[i].copy());
        i = i + 1;
    }
    assert(paths_view(r@) =~= paths_view(paths@));
    r
}

/// The two lists hold the same paths in the same order.
pub fn same_paths(a: &[FsPath], b: &[FsPath]) -> (r: bool)
    ensures
        r == (paths_view(a@) == paths_view(b@)),
{
    if a.len() != b.len() {
        proof {
            if paths_view(a@) == paths_view(b@) {
                assert(paths_view(a@).len() == paths_view(b@).len());
            }
        }
        return false;
    }
    let mut i: usize = 0;
    while i < a.len()
        invariant
            i <= a.len(),
            a.len() == b.len(),
            forall|j: int| 0 <= j < i ==> (#[trigger] a@[j])@ == b@[j]@,
        decreases a.len() - i,
    {
        if !a[i].same_path(&b[i]) {
            proof {
                if paths_view(a@) == paths_view(b@) {
                    assert(paths_view(a@)[i as int] == paths_view(b@)[i as int]);
                }
            }
            return false;
        }
        i = i + 1;
    }
    assert(paths_view(a@) =~= paths_view(b@));
    true
}

} // verus!
