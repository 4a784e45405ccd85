use vstd::prelude::*;

use crate::fs_path::{FsPath, PathModel};

verus! {

/// Identifies one pane of the browser window.
#[derive(Debug, Clone, Copy, PartialEq, Eq, Structural)]
pub struct BrowserPaneId(pub u64);

impl BrowserPaneId {
    /// The pane that exists from startup.
    pub fn primary() -> (r: BrowserPaneId)
        ensures
            r.0 == 0,
    {
        BrowserPaneId(0)
    }
}

/// How a pane lays out the entries of its directory.
#[derive(Debug, Clone, Copy, PartialEq, Eq, Structural)]
pub enum BrowserViewMode {
    List,
    Icons,
    Columns,
}

/// The kind of a directory entry.
#[derive(Debug, Clone, Copy, PartialEq, Eq, Structural)]
pub enum FileKind {
    File,
    Directory,
    Symlink,
    Other,
}

/// The keyboard modifiers held at a moment.
#[derive(Debug, Clone, Copy, PartialEq, Eq, Default, Structural)]
pub struct KeyboardModifiers {
    pub control: bool,
    pub shift: bool,
    pub alt: bool,
    pub command: bool,
}

/// An insertion slot in the sidebar's bookmark list.
#[derive(Debug, Clone, Copy, PartialEq, Eq, Structural)]
pub enum SidebarBookmarkDropSlot {
    Insert { index: usize },
}

/// Where a drop onto a tab lands.
#[derive(Debug, Clone, PartialEq, Eq)]
pub enum TabDropDestination {
    Directory(FsPath),
    Trash,
}

/// The meaning of a [`TabDropDestination`].
pub enum TabDestinationModel {
    Directory(PathModel),
    Trash,
}

impl View for TabDropDestination {
    type V = TabDestinationModel;

    open spec fn view(&self) -> TabDestinationModel {
        match self {
            TabDropDestination::Directory(d) => TabDestinationModel::Directory(d@),
            TabDropDestination::Trash => TabDestinationModel::Trash,
        }
    }
}

/// A tab that a file drag hovers, with the destination it offered then.
#[derive(Debug, Clone, PartialEq, Eq)]
pub struct TabFileDropTarget {
    pub pane_id: BrowserPaneId,
    pub tab_id: usize,
    pub destination: TabDropDestination,
}

/// The meaning of a [`TabFileDropTarget`].
pub struct TabTargetModel {
    pub pane_id: BrowserPaneId,
    pub tab_id: usize,
    pub destination: TabDestinationModel,
}

impl View for TabFileDropTarget {
    type V = TabTargetModel;

    open spec fn view(&self) -> TabTargetModel {
        TabTargetModel { pane_id: self.pane_id, tab_id: self.tab_id, destination: self.destination@ }
    }
}

/// What a file drag or drop is aimed at.
#[derive(Debug, Clone, PartialEq, Eq)]
pub enum FileDropTarget {
    Directory(FsPath),
    Trash,
    Tab(TabFileDropTarget),
    SidebarBookmarkSlot(SidebarBookmarkDropSlot),
}

/// The meaning of a [`FileDropTarget`].
pub enum DropTargetModel {
    Directory(PathModel),
    Trash,
    Tab(TabTargetModel),
    SidebarBookmarkSlot(SidebarBookmarkDropSlot),
}

impl View for FileDropTarget {
    type V = DropTargetModel;

    open spec fn view(&self) -> DropTargetModel {
        match self {
            FileDropTarget::Directory(d) => DropTargetModel::Directory(d@),
            FileDropTarget::Trash => DropTargetModel::Trash,
            FileDropTarget::Tab(t) => DropTargetModel::Tab(t@),
            FileDropTarget::SidebarBookmarkSlot(s) => DropTargetModel::SidebarBookmarkSlot(*s),
        }
    }
}

/// The view of an optional drop target.
pub open spec fn opt_target_view(t: Option<FileDropTarget>) -> Option<DropTargetModel> {
    match t {
        Some(t) => Some(t@),
        None => None,
    }
}

/// The view of an optional path.
pub open spec fn opt_path_view(p: Option<FsPath>) -> Option<PathModel> {
    match p {
        Some(p) => Some(p@),
        None => None,
    }
}

/// What a drop of dragged files does at its target.
#[derive(Debug, Clone, Copy, PartialEq, Eq, Structural)]
pub enum FileDragDropIntent {
    Copy,
    CreateLink,
    Move,
}


impl TabDropDestination {
    /// A copy of this destination.
    pub fn copy(&self) -> (r: TabDropDestination)
        ensures
            r@ == self@,
    {
        match self {
            TabDropDestination::Directory(d) => TabDropDestination::Directory(d.copy()),
            TabDropDestination::Trash => TabDropDestination::Trash,
        }
    }

    /// The two destinations are the same.
    pub fn same_destination(&self, other: &TabDropDestination) -> (r: bool)
        ensures
            r == (self@ == other@),
    {
        match (self, other) {
            (TabDropDestination::Directory(a), TabDropDestination::Directory(b)) => a.same_path(b),
            (TabDropDestination::Trash, TabDropDestination::Trash) => true,
            _ => false,
        }
    }
}

impl TabFileDropTarget {
    /// A copy of this target.
    pub fn clone_target(&self) -> (r: TabFileDropTarget)
        ensures
            r@ == self@,
    {
        TabFileDropTarget { pane_id: self.pane_id, tab_id: self.tab_id, destination: self.destination.copy() }
    }

    /// The two targets are the same.
    pub fn same_target(&self, other: &TabFileDropTarget) -> (r: bool)
        ensures
            r == (self@ == other@),
    {
        self.pane_id == other.pane_id && self.tab_id == other.tab_id
            && self.destination.same_destination(&other.destination)
    }
}

impl FileDropTarget {
    /// A copy of this target.
    pub fn copy(&self) -> (r: FileDropTarget)
        ensures
            r@ == self@,
    {
        match self {
            FileDropTarget::Directory(d) => FileDropTarget::Directory(d.copy()),
            FileDropTarget::Trash => FileDropTarget::Trash,
            FileDropTarget::Tab(t) => FileDropTarget::Tab(t.clone_target()),
            FileDropTarget::SidebarBookmarkSlot(s) => FileDropTarget::SidebarBookmarkSlot(*s),
        }
    }

    /// The two targets are the same.
    pub fn same_target(&self, other: &FileDropTarget) -> (r: bool)
        ensures
            r == (self@ == other@),
    {
        match (self, other) {
            (FileDropTarget::Directory(a), FileDropTarget::Directory(b)) => a.same_path(b),
            (FileDropTarget::Trash, FileDropTarget::Trash) => true,
            (FileDropTarget::Tab(a), FileDropTarget::Tab(b)) => a.same_target(b),
            (FileDropTarget::SidebarBookmarkSlot(a), FileDropTarget::SidebarBookmarkSlot(b)) => {
                match (a, b) {
                    (SidebarBookmarkDropSlot::Insert { index: x }, SidebarBookmarkDropSlot::Insert { index: y }) => x == y,
                }
            },
            _ => false,
        }
    }
}

/// A copy of an optional drop target.
pub fn copy_opt_target(t: &Option<FileDropTarget>) -> (r: Option<FileDropTarget>)
    ensures
        opt_target_view(r) == opt_target_view(*t),
{
    match t {
        Some(t) => Some(t.copy()),
        None => None,
    }
}

/// The two optional drop targets are the same.
pub fn same_opt_target(a: &Option<FileDropTarget>, b: &Option<FileDropTarget>) -> (r: bool)
    ensures
        r == (opt_target_view(*a) == opt_target_view(*b)),
{
    match (a, b) {
        (Some(x), Some(y)) => x.same_target(y),
        (None, None) => true,
        _ => false,
    }
}

/// A copy of an optional path.
pub fn copy_opt_path(p: &Option<FsPath>) -> (r: Option<FsPath>)
    ensures
        opt_path_view(r) == opt_path_view(*p),
{
    match p {
        Some(p) => Some(p.copy()),
        None => None,
    }
}

} // verus!
