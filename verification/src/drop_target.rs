use vstd::prelude::*;

use crate::fs_path::{FsPath, PathModel};
use crate::model::{DropTargetModel, FileDropTarget, SidebarBookmarkDropSlot, TabFileDropTarget, opt_target_view};

verus! {

/// The band of a bookmark row that the pointer is in: its top edge inserts
/// before the row, its bottom edge inserts after it, the middle is the row's
/// directory.
#[derive(Debug, Clone, Copy, PartialEq, Eq, Structural)]
pub enum SidebarBookmarkRowPointerTarget {
    InsertBefore,
    Directory,
    InsertAfter,
}

/// A sidebar directory row under the pointer.
#[derive(Debug, Clone, PartialEq, Eq)]
pub struct SidebarDirectoryHit {
    pub directory: FsPath,
    pub favorite_index: Option<usize>,
    pub row_target: SidebarBookmarkRowPointerTarget,
}

/// An entry under the pointer and the directory a drop on it lands in.
#[derive(Debug, Clone, PartialEq, Eq)]
pub struct EntryDropHit {
    pub directory: FsPath,
    pub path: FsPath,
}

/// The measured drop areas that contain the pointer, each list in the order
/// in which the areas were measured (later areas are drawn above earlier ones).
#[derive(Debug, Clone, PartialEq, Eq)]
pub struct FileDropHit {
    pub tabs: Vec<TabFileDropTarget>,
    pub empty_sidebar_bookmarks: bool,
    pub sidebar_directories: Vec<SidebarDirectoryHit>,
    /// Breadcrumb segments whose item and viewport both contain the pointer.
    pub breadcrumbs: Vec<FsPath>,
    pub blocked: bool,
    /// The entries under the pointer.
    pub entries: Vec<EntryDropHit>,
    pub directory_targets: Vec<FsPath>,
}

/// The location that stands for the trash.
pub open spec fn trash_location() -> PathModel {
    PathModel { absolute: false, parts: seq![seq!['t', 'r', 'a', 's', 'h', ':']] }
}

/// The location that stands for the trash.
pub fn trash_location_path() -> (r: FsPath)
    ensures
        r@ == trash_location(),
{
    let name = String::from_str("trash:");
    proof {
        reveal_strlit("trash:");
        assert(name@ =~= seq!['t', 'r', 'a', 's', 'h', ':']);
    }
    let mut components: Vec<String> = Vec::new();
    components.push(name);
    let r = FsPath { absolute: false, components };
    proof {
        assert(r@.parts[0] == name@);
        assert(r@.parts =~= trash_location().parts);
    }
    r
}

/// A sidebar row drops into its directory, except the trash row.
pub open spec fn sidebar_target(directory: PathModel) -> Option<DropTargetModel> {
    if directory == trash_location() {
        None
    } else {
        Some(DropTargetModel::Directory(directory))
    }
}

/// The depth of a path: its number of components, the root of an absolute
/// path counting as one.
pub open spec fn path_depth(path: PathModel) -> int {
    path.parts.len() + if path.absolute { 1int } else { 0int }
}

/// The index of the deepest breadcrumb ([`path_depth`]); among equally deep
/// ones, the last.
pub open spec fn is_deepest_breadcrumb(breadcrumbs: Seq<FsPath>, j: int) -> bool {
    &&& 0 <= j < breadcrumbs.len()
    &&& forall|k: int| 0 <= k < breadcrumbs.len() ==> path_depth(#[trigger] breadcrumbs[k]@) <= path_depth(breadcrumbs[j]@)
    &&& forall|k: int| j < k < breadcrumbs.len() ==> path_depth(#[trigger] breadcrumbs[k]@) < path_depth(breadcrumbs[j]@)
}

/// The depth of `path`: see [`path_depth`].
fn depth_of(path: &FsPath) -> (n: u128)
    ensures
        n == path_depth(path@),
{
    let count = path.component_count() as u128;
    if path.absolute {
        count + 1
    } else {
        count
    }
}

/// What the pointer drops onto, in priority order: a tab; then, for a
/// directory dragged as a bookmark candidate, the empty bookmark area (first
/// slot) or a sidebar row (its edges insert before or after a bookmark, its
/// middle is the row's directory unless that is the dragged directory); for
/// other drags a sidebar row's directory; then the deepest breadcrumb; a
/// blocked area refuses; then an entry's directory; then a directory area.
/// Among overlapping areas of one kind the last measured wins.
pub open spec fn resolved_drop_target(hit: FileDropHit, bookmark_source: Option<PathModel>) -> Option<DropTargetModel> {
    let tabs = hit.tabs@;
    let sidebar = hit.sidebar_directories@;
    if tabs.len() > 0 {
        Some(DropTargetModel::Tab(tabs.last()@))
    } else if bookmark_source is Some && hit.empty_sidebar_bookmarks {
        Some(DropTargetModel::SidebarBookmarkSlot(SidebarBookmarkDropSlot::Insert { index: 0 }))
    } else if sidebar.len() > 0 {
        let row = sidebar.last();
        match (bookmark_source, row.favorite_index) {
            (Some(source), Some(index)) => match row.row_target {
                SidebarBookmarkRowPointerTarget::InsertBefore =>
                    Some(DropTargetModel::SidebarBookmarkSlot(SidebarBookmarkDropSlot::Insert { index })),
                SidebarBookmarkRowPointerTarget::Directory => if row.directory@ == source {
                    None
                } else {
                    sidebar_target(row.directory@)
                },
                SidebarBookmarkRowPointerTarget::InsertAfter =>
                    Some(DropTargetModel::SidebarBookmarkSlot(SidebarBookmarkDropSlot::Insert { index: (index + 1) as usize })),
            },
            _ => sidebar_target(row.directory@),
        }
    } else if hit.breadcrumbs@.len() > 0 {
        let j = choose|j: int| is_deepest_breadcrumb(hit.breadcrumbs@, j);
        Some(DropTargetModel::Directory(hit.breadcrumbs@[j]@))
    } else if hit.blocked {
        None
    } else if hit.entries@.len() > 0 {
        Some(DropTargetModel::Directory(hit.entries@.last().directory@))
    } else if hit.directory_targets@.len() > 0 {
        Some(DropTargetModel::Directory(hit.directory_targets@.last()@))
    } else {
        None
    }
}

/// A sidebar row drops into its directory, except the trash row.
pub fn sidebar_file_drop_target_for_directory(directory: &FsPath) -> (r: Option<FileDropTarget>)
    ensures
        opt_target_view(r) == sidebar_target(directory@),
{
    if directory.same_path(&trash_location_path()) {
        None
    } else {
        Some(FileDropTarget::Directory(directory.copy()))
    }
}

/// The index of the deepest breadcrumb, the last one among equally deep ones.
fn deepest_breadcrumb_index(breadcrumbs: &Vec<FsPath>) -> (j: usize)
    requires
        breadcrumbs@.len() > 0,
    ensures
        is_deepest_breadcrumb(breadcrumbs@, j as int),
{
    let mut best: usize = 0;
    let mut i: usize = 1;
    while i < breadcrumbs.len()
        invariant
            1 <= i <= breadcrumbs.len(),
            best < i,
            forall|k: int| 0 <= k < i ==> path_depth(#[trigger] breadcrumbs@[k]@) <= path_depth(breadcrumbs@[best as int]@),
            forall|k: int| best < k < i ==> path_depth(#[trigger] breadcrumbs@[k]@) < path_depth(breadcrumbs@[best as int]@),
        decreases breadcrumbs.len() - i,
    {
        if depth_of(&breadcrumbs[i]) >= depth_of(&breadcrumbs[best]) {
            best = i;
        }
        i = i + 1;
    }
    best
}

/// What the pointer drops onto: see [`resolved_drop_target`].
pub fn resolve_file_drop_target(hit: &FileDropHit, bookmark_source: Option<&FsPath>) -> (r: Option<FileDropTarget>)
    requires
        forall|k: int| 0 <= k < hit.sidebar_directories@.len() ==>
            (#[trigger] hit.sidebar_directories@[k]).favorite_index != Some(usize::MAX),
    ensures
        opt_target_view(r) == resolved_drop_target(*hit, match bookmark_source {
            Some(p) => Some(p@),
            None => None,
        }),
{
    let ntabs = hit.tabs.len();
    if ntabs > 0 {
        return Some(FileDropTarget::Tab(hit.tabs[ntabs - 1].clone_target()));
    }
    if bookmark_source.is_some() && hit.empty_sidebar_bookmarks {
        return Some(FileDropTarget::SidebarBookmarkSlot(SidebarBookmarkDropSlot::Insert { index: 0 }));
    }
    let nside = hit.sidebar_directories.len();
    if nside > 0 {
        let row = &hit.sidebar_directories[nside - 1];
        assert(row.favorite_index != Some(usize::MAX));
        return match (bookmark_source, row.favorite_index) {
            (Some(source), Some(index)) => match row.row_target {
                SidebarBookmarkRowPointerTarget::InsertBefore =>
                    Some(FileDropTarget::SidebarBookmarkSlot(SidebarBookmarkDropSlot::Insert { index })),
                SidebarBookmarkRowPointerTarget::Directory => if row.directory.same_path(source) {
                    None
                } else {
                    sidebar_file_drop_target_for_directory(&row.directory)
                },
                SidebarBookmarkRowPointerTarget::InsertAfter =>
                    Some(FileDropTarget::SidebarBookmarkSlot(SidebarBookmarkDropSlot::Insert { index: index + 1 })),
            },
            _ => sidebar_file_drop_target_for_directory(&row.directory),
        };
    }
    if hit.breadcrumbs.len() > 0 {
        let j = deepest_breadcrumb_index(&hit.breadcrumbs);
        proof {
            assert(is_deepest_breadcrumb(hit.breadcrumbs@, j as int));
            let c = choose|j: int| is_deepest_breadcrumb(hit.breadcrumbs@, j);
            assert(is_deepest_breadcrumb(hit.breadcrumbs@, c));
            if c < j {
                assert(hit.breadcrumbs@[j as int]@.parts.len() < hit.breadcrumbs@[c]@.parts.len());
            } else if c > j {
                assert(hit.breadcrumbs@[c]@.parts.len() < hit.breadcrumbs@[j as int]@.parts.len());
            }
        }
        return Some(FileDropTarget::Directory(hit.breadcrumbs[j].copy()));
    }
    if hit.blocked {
        return None;
    }
    let nentries = hit.entries.len();
    if nentries > 0 {
        return Some(FileDropTarget::Directory(hit.entries[nentries - 1].directory.copy()));
    }
    let ndirs = hit.directory_targets.len();
    if ndirs > 0 {
        return Some(FileDropTarget::Directory(hit.directory_targets[ndirs - 1].copy()));
    }
    None
}

} // verus!
