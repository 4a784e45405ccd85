use vstd::prelude::*;

use crate::browser::FileBrowser;
use crate::drag::paths_view;
use crate::drop_target::{EntryDropHit, FileDropHit, SidebarDirectoryHit};
use crate::fs_path::{FsPath, PathModel};
use crate::model::{BrowserPaneId, TabFileDropTarget};

verus! {

/// A directory area under the pointer (a breadcrumb segment or a directory
/// area), with the pane that drew it.
#[derive(Debug, Clone, PartialEq, Eq)]
pub struct PaneDirectoryHit {
    pub pane_id: BrowserPaneId,
    pub directory: FsPath,
}

/// An entry under the pointer, with the pane that drew it and the directory
/// a drop on it lands in there, if any.
#[derive(Debug, Clone, PartialEq, Eq)]
pub struct PaneEntryHit {
    pub pane_id: BrowserPaneId,
    pub path: FsPath,
    pub directory: Option<FsPath>,
}

/// The measured drop areas under the pointer, each with the pane that drew
/// it where it belongs to a pane, in the order they were measured.
#[derive(Debug, Clone, PartialEq, Eq)]
pub struct PaneFileDropHit {
    pub tabs: Vec<TabFileDropTarget>,
    pub empty_sidebar_bookmarks: bool,
    pub sidebar_directories: Vec<SidebarDirectoryHit>,
    pub breadcrumbs: Vec<PaneDirectoryHit>,
    /// The panes of the blocked areas under the pointer.
    pub blocked: Vec<BrowserPaneId>,
    pub entries: Vec<PaneEntryHit>,
    pub directory_targets: Vec<PaneDirectoryHit>,
}

/// The directories of `hits` drawn by panes that take file drops, in order.
pub open spec fn accepted_directories(browser: FileBrowser, hits: Seq<PaneDirectoryHit>) -> Seq<PathModel>
    decreases hits.len(),
{
    if hits.len() == 0 {
        Seq::empty()
    } else {
        let rest = accepted_directories(browser, hits.drop_last());
        if browser.pane_accepts_drag(hits.last().pane_id) {
            rest.push(hits.last().directory@)
        } else {
            rest
        }
    }
}

/// An entry under the pointer as (directory, path), when its pane takes
/// file drops and it has a directory to drop into.
#[verifier::opaque]
pub open spec fn accepted_entry_hit(browser: FileBrowser, hit: PaneEntryHit) -> Option<(PathModel, PathModel)> {
    if browser.pane_accepts_drag(hit.pane_id) && hit.directory is Some {
        Some((hit.directory.unwrap()@, hit.path@))
    } else {
        None
    }
}

/// The entries of `hits` that count for a drop ([`accepted_entry_hit`]),
/// as (directory, path), in order.
pub open spec fn accepted_entries(browser: FileBrowser, hits: Seq<PaneEntryHit>) -> Seq<(PathModel, PathModel)>
    decreases hits.len(),
{
    if hits.len() == 0 {
        Seq::empty()
    } else {
        let rest = accepted_entries(browser, hits.drop_last());
        match accepted_entry_hit(browser, hits.last()) {
            Some(v) => rest.push(v),
            None => rest,
        }
    }
}

/// Some pane of `panes` takes file drops.
pub open spec fn any_accepting(browser: FileBrowser, panes: Seq<BrowserPaneId>) -> bool
    decreases panes.len(),
{
    if panes.len() == 0 {
        false
    } else {
        any_accepting(browser, panes.drop_last()) || browser.pane_accepts_drag(panes.last())
    }
}

/// The entries of a hit list as (directory, path).
pub open spec fn entry_hits_view(entries: Seq<EntryDropHit>) -> Seq<(PathModel, PathModel)> {
    entries.map_values(|e: EntryDropHit| (e.directory@, e.path@))
}

impl FileBrowser {
    /// The directories of `hits` whose panes take file drops.
    fn accepted_directories_of(&self, hits: &Vec<PaneDirectoryHit>) -> (r: Vec<FsPath>)
        ensures
            paths_view(r@) == accepted_directories(*self, hits@),
    {
        let mut r: Vec<FsPath> = Vec::new();
        let mut i: usize = 0;
        while i < hits.len()
            invariant
                i <= hits@.len(),
                paths_view(r@) == accepted_directories(*self, hits@.take(i as int)),
            decreases hits.len() - i,
        {
            proof {
                assert(hits@.take(i + 1).drop_last() =~= hits@.take(i as int));
                assert(hits@.take(i + 1).last() == hits@[i as int]);
            }
            if self.pane_accepts_file_drag(hits[i].pane_id) {
                let ghost before = r@;
                r.push(hits[i].directory.copy());
                proof {
                    assert(paths_view(r@) =~= paths_view(before).push(hits@[i as int].directory@));
                }
            }
            i = i + 1;
        }
        proof {
            assert(hits@.take(hits@.len() as int) =~= hits@);
        }
        r
    }

    /// The entry hit of `hit` when its pane takes file drops and it has a
    /// drop directory.
    fn accepted_entry(&self, hit: &PaneEntryHit) -> (r: Option<EntryDropHit>)
        ensures
            match accepted_entry_hit(*self, *hit) {
                Some(v) => r matches Some(e) && (e.directory@, e.path@) == v,
                None => r is None,
            },
    {
        reveal(accepted_entry_hit);
        if !self.pane_accepts_file_drag(hit.pane_id) {
            return None;
        }
        match &hit.directory {
            Some(directory) => Some(EntryDropHit { directory: directory.copy(), path: hit.path.copy() }),
            None => None,
        }
    }

    /// The entries of `hits` whose panes take file drops and that have a
    /// drop directory.
    fn accepted_entries_of(&self, hits: &Vec<PaneEntryHit>) -> (r: Vec<EntryDropHit>)
        ensures
            entry_hits_view(r@) == accepted_entries(*self, hits@),
    {
        let mut r: Vec<EntryDropHit> = Vec::new();
        let mut i: usize = 0;
        while i < hits.len()
            invariant
                i <= hits@.len(),
                entry_hits_view(r@) == accepted_entries(*self, hits@.take(i as int)),
            decreases hits.len() - i,
        {
            proof {
                assert(hits@.take(i + 1).drop_last() =~= hits@.take(i as int));
                assert(hits@.take(i + 1).last() == hits@[i as int]);
            }
            let found = self.accepted_entry(&hits[i]);
            match found {
                Some(entry) => {
                    let ghost before = r@;
                    r.push(entry);
                    proof {
                        assert(entry_hits_view(r@) =~= entry_hits_view(before).push(
                            accepted_entry_hit(*self, hits@[i as int]).unwrap(),
                        ));
                    }
                },
                None => {},
            }
            i = i + 1;
        }
        proof {
            assert(hits@.take(hits@.len() as int) =~= hits@);
        }
        r
    }

    /// Fixes the drop areas under the pointer for a drop: the areas that
    /// panes drew count only where the pane takes file drops
    /// ([`FileBrowser::pane_accepts_drag`]), and an entry only with a
    /// directory to drop into; tabs and the sidebar count as measured.
    pub fn freeze_file_drop_hit(&self, measured: PaneFileDropHit) -> (r: FileDropHit)
        ensures
            r.tabs == measured.tabs,
            r.empty_sidebar_bookmarks == measured.empty_sidebar_bookmarks,
            r.sidebar_directories == measured.sidebar_directories,
            paths_view(r.breadcrumbs@) == accepted_directories(*self, measured.breadcrumbs@),
            r.blocked == any_accepting(*self, measured.blocked@),
            entry_hits_view(r.entries@) == accepted_entries(*self, measured.entries@),
            paths_view(r.directory_targets@) == accepted_directories(*self, measured.directory_targets@),
    {
        let breadcrumbs = self.accepted_directories_of(&measured.breadcrumbs);
        let directory_targets = self.accepted_directories_of(&measured.directory_targets);
        let entries = self.accepted_entries_of(&measured.entries);
        let mut blocked = false;
        let mut i: usize = 0;
        while i < measured.blocked.len()
            invariant
                i <= measured.blocked@.len(),
                blocked == any_accepting(*self, measured.blocked@.take(i as int)),
            decreases measured.blocked.len() - i,
        {
            proof {
                assert(measured.blocked@.take(i + 1).drop_last() =~= measured.blocked@.take(i as int));
                assert(measured.blocked@.take(i + 1).last() == measured.blocked@[i as int]);
            }
            if self.pane_accepts_file_drag(measured.blocked[i]) {
                blocked = true;
            }
            i = i + 1;
        }
        proof {
            assert(measured.blocked@.take(measured.blocked@.len() as int) =~= measured.blocked@);
        }
        FileDropHit {
            tabs: measured.tabs,
            empty_sidebar_bookmarks: measured.empty_sidebar_bookmarks,
            sidebar_directories: measured.sidebar_directories,
            breadcrumbs,
            blocked,
            entries,
            directory_targets,
        }
    }
}

} // verus!
