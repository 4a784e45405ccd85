use vstd::prelude::*;

use crate::browser::{ExpandedDirectory, ExpandedDirectoryStatus, FileBrowser};
use crate::fs_path::{FsPath, PathModel};
use crate::model::FileKind;
use crate::panes::{synced_panes, synced_tabs};
use crate::selection::expanded_paths;
use crate::tab_state::{panes_view, tabs_view};

verus! {

/// What opening a directory's column did.
#[derive(Debug, Clone, Copy, PartialEq, Eq, Structural)]
pub enum ColumnOpening {
    /// Nothing: the trash is shown, or the path is not a listed directory.
    Ignored,
    /// The directory's node was known and is expanded again.
    Reopened,
    /// A new node was added, loading: its listing is to be requested.
    Load,
}

/// `after` holds the expanded nodes of `before` once `directory`'s node is
/// open: the first node with its path is marked expanded, keeping its
/// children; without one, a new node with no children yet, loading, is
/// appended.
pub open spec fn nodes_after_open(before: Seq<ExpandedDirectory>, after: Seq<ExpandedDirectory>, directory: PathModel) -> bool {
    match expanded_paths(before).index_of_first(directory) {
        Some(i) => same_nodes(after, before.update(i, ExpandedDirectory { is_expanded: true, ..before[i] })),
        None => {
            &&& after.len() == before.len() + 1
            &&& same_nodes(after.take(before.len() as int), before)
            &&& after.last().path@ == directory
            &&& after.last().entries@.len() == 0
            &&& after.last().status == ExpandedDirectoryStatus::Loading
            &&& after.last().is_expanded
        },
    }
}

/// Two node lists agree where it matters: same length, same paths, same
/// children, same status and expansion.
pub open spec fn same_nodes(a: Seq<ExpandedDirectory>, b: Seq<ExpandedDirectory>) -> bool {
    &&& a.len() == b.len()
    &&& forall|i: int|
        0 <= i < a.len() ==> {
            &&& (#[trigger] a[i]).path@ == b[i].path@
            &&& a[i].entries@ == b[i].entries@
            &&& a[i].status == b[i].status
            &&& a[i].is_expanded == b[i].is_expanded
        }
}

/// Opening a column never lists a directory twice: when every expanded
/// directory is listed once before, so it is after.
pub proof fn lemma_opening_a_column_keeps_expanded_directories_distinct(
    before: Seq<ExpandedDirectory>,
    after: Seq<ExpandedDirectory>,
    directory: PathModel,
)
    requires
        expanded_paths(before).no_duplicates(),
        nodes_after_open(before, after, directory),
    ensures
        expanded_paths(after).no_duplicates(),
{
    expanded_paths(before).index_of_first_ensures(directory);
    match expanded_paths(before).index_of_first(directory) {
        Some(i) => {
            assert(expanded_paths(after) =~= expanded_paths(before));
        },
        None => {
            assert forall|j: int| 0 <= j < before.len() implies #[trigger] after[j].path@ == before[j].path@ by {
                assert(after.take(before.len() as int)[j] == after[j]);
            }
            assert(expanded_paths(after) =~= expanded_paths(before).push(directory));
        },
    }
}

impl FileBrowser {
    /// Opens the column of `path` when it is a listed directory and the
    /// trash is not shown: it becomes the deepest open column, its node is
    /// expanded (see [`nodes_after_open`]) and the active tab and pane are
    /// brought up to date. Otherwise nothing changes. An opened column
    /// changes the session: the caller then asks for a session save
    /// ([`FileBrowser::request_browser_session_save`]), which reads the clock.
    pub fn open_column_for_directory(&mut self, path: FsPath) -> (r: ColumnOpening)
        ensures
            (r is Ignored) == (old(self).is_trash_view || old(self).kind_of(path@) != Some(FileKind::Directory)),
            r is Ignored ==> *final(self) == *old(self),
            r is Load ==> expanded_paths(old(self).expanded_directories@).index_of_first(path@) is None,
            r is Reopened ==> expanded_paths(old(self).expanded_directories@).index_of_first(path@) is Some,
            !(r is Ignored) ==> ({
                let opened = FileBrowser {
                    deepest_open_column_directory: final(self).deepest_open_column_directory,
                    expanded_directories: final(self).expanded_directories,
                    ..*old(self)
                };
                &&& final(self).deepest_open_column_directory matches Some(d) && d@ == path@
                &&& nodes_after_open(old(self).expanded_directories@, final(self).expanded_directories@, path@)
                &&& tabs_view(final(self).tabs@) == synced_tabs(opened)
                &&& panes_view(final(self).panes@) == synced_panes(opened, synced_tabs(opened))
                &&& *final(self) == (FileBrowser { tabs: final(self).tabs, panes: final(self).panes, ..opened })
            }),
    {
        if self.is_trash_view {
            return ColumnOpening::Ignored;
        }
        match self.entry_kind(&path) {
            Some(FileKind::Directory) => {},
            _ => return ColumnOpening::Ignored,
        }
        self.deepest_open_column_directory = Some(path.copy());
        let ghost old_nodes = self.expanded_directories@;
        let found = self.expanded_position(&path);
        proof {
            expanded_paths(old_nodes).index_of_first_ensures(path@);
        }
        let outcome = match found {
            Some(i) => {
                let mut nodes: Vec<ExpandedDirectory> = Vec::new();
                std::mem::swap(&mut nodes, &mut self.expanded_directories);
                let mut node = nodes.remove(i);
                node.is_expanded = true;
                nodes.insert(i, node);
                self.expanded_directories = nodes;
                proof {
                    let want = old_nodes.update(i as int, ExpandedDirectory { is_expanded: true, ..old_nodes[i as int] });
                    assert forall|j: int| 0 <= j < want.len() implies {
                        &&& (#[trigger] self.expanded_directories@[j]).path@ == want[j].path@
                        &&& self.expanded_directories@[j].entries@ == want[j].entries@
                        &&& self.expanded_directories@[j].status == want[j].status
                        &&& self.expanded_directories@[j].is_expanded == want[j].is_expanded
                    } by {
                        if j < i {
                        } else if j == i {
                        } else {
                        }
                    }
                }
                ColumnOpening::Reopened
            },
            None => {
                self.expanded_directories.push(
                    ExpandedDirectory {
                        path: path.copy(),
                        entries: Vec::new(),
                        status: ExpandedDirectoryStatus::Loading,
                        is_expanded: true,
                    },
                );
                proof {
                    let after = self.expanded_directories@;
                    assert(after.take(old_nodes.len() as int) =~= old_nodes);
                }
                ColumnOpening::Load
            },
        };
        self.sync_active_tab_state();
        outcome
    }
}

} // verus!
