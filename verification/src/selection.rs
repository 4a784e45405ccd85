use vstd::prelude::*;

use crate::browser::{ExpandedDirectory, ExpandedDirectoryStatus, FileBrowser};
use crate::drag::{copy_paths, paths_view};
use crate::fs_path::{FsPath, PathModel, path_parent};
use crate::model::BrowserViewMode;
use crate::tab_state::{EntryModel, entries_view};

verus! {

/// Which way a keyboard step moves the selection.
#[derive(Debug, Clone, Copy, PartialEq, Eq, Structural)]
pub enum SelectionStep {
    Previous,
    Next,
}

/// The paths of a list of entries, in order.
pub open spec fn entry_paths(entries: Seq<EntryModel>) -> Seq<PathModel> {
    entries.map_values(|e: EntryModel| e.path)
}

/// The paths of the expanded directories, in order.
pub open spec fn expanded_paths(expanded: Seq<ExpandedDirectory>) -> Seq<PathModel> {
    expanded.map_values(|d: ExpandedDirectory| d.path@)
}

/// The path a keyboard step selects among `paths`: the one before or after
/// the selected path (staying at the ends), or, with nothing selected among
/// them, the last for a step back and the first for a step forward.
pub open spec fn stepped_target(paths: Seq<PathModel>, selected: Option<PathModel>, step: SelectionStep) -> Option<PathModel> {
    if paths.len() == 0 {
        None
    } else {
        let current = match selected {
            Some(s) => paths.index_of_first(s),
            None => None,
        };
        let index = match (current, step) {
            (Some(i), SelectionStep::Previous) => if i > 0 {
                i - 1
            } else {
                0
            },
            (Some(i), SelectionStep::Next) => if i + 1 < paths.len() {
                i + 1
            } else {
                paths.len() - 1
            },
            (None, SelectionStep::Previous) => paths.len() - 1,
            (None, SelectionStep::Next) => 0,
        };
        Some(paths[index])
    }
}

/// The first position of `path` among `paths`.
pub fn path_position(paths: &[FsPath], path: &FsPath) -> (r: Option<usize>)
    ensures
        match r {
            Some(i) => paths_view(paths@).index_of_first(path@) == Some(i as int),
            None => paths_view(paths@).index_of_first(path@) is None,
        },
{
    let ghost v = paths_view(paths@);
    proof {
        v.index_of_first_ensures(path@);
    }
    let mut i: usize = 0;
    while i < paths.len()
        invariant
            i <= paths@.len(),
            v == paths_view(paths@),
            forall|j: int| 0 <= j < i ==> v[j] != path@,
        decreases paths.len() - i,
    {
        proof {
            assert(v[i as int] == paths@[i as int]@);
        }
        if paths[i].same_path(path) {
            proof {
                v.index_of_first_ensures(path@);
                assert(v.contains(path@));
                let k = v.index_of_first(path@).unwrap();
                if k < i {
                    assert(v[k] != path@);
                }
                if k > i {
                    assert(v[i as int] != path@);
                }
            }
            return Some(i);
        }
        i = i + 1;
    }
    proof {
        if v.contains(path@) {
            let k = choose|k: int| 0 <= k < v.len() && v[k] == path@;
            assert(v[k] != path@);
        }
    }
    None
}

/// The path a keyboard step selects: see [`stepped_target`].
pub fn stepped_selection_target(paths: &[FsPath], selected: Option<&FsPath>, step: SelectionStep) -> (r: Option<FsPath>)
    ensures
        match r {
            Some(p) => stepped_target(paths_view(paths@), match selected {
                Some(s) => Some(s@),
                None => None,
            }, step) == Some(p@),
            None => stepped_target(paths_view(paths@), match selected {
                Some(s) => Some(s@),
                None => None,
            }, step) is None,
        },
{
    let n = paths.len();
    if n == 0 {
        return None;
    }
    let current = match selected {
        Some(s) => path_position(paths, s),
        None => None,
    };
    proof {
        match selected {
            Some(s) => paths_view(paths@).index_of_first_ensures(s@),
            None => {},
        }
    }
    let index = match (current, step) {
        (Some(i), SelectionStep::Previous) => if i > 0 {
            i - 1
        } else {
            0
        },
        (Some(i), SelectionStep::Next) => if i + 1 < n {
            i + 1
        } else {
            n - 1
        },
        (None, SelectionStep::Previous) => n - 1,
        (None, SelectionStep::Next) => 0,
    };
    Some(paths[index].copy())
}

impl FileBrowser {
    /// The entries listed in `directory`: the current listing for the
    /// current directory, else the children of its expanded node (the first
    /// one with that path), else none.
    pub open spec fn entries_in(&self, directory: PathModel) -> Seq<PathModel> {
        if directory == self.current_dir@ {
            entry_paths(entries_view(self.entries@))
        } else {
            match expanded_paths(self.expanded_directories@).index_of_first(directory) {
                Some(i) => entry_paths(entries_view(self.expanded_directories@[i].entries@)),
                None => Seq::empty(),
            }
        }
    }

    /// The position of the expanded node at `directory` (the first).
    pub fn expanded_position(&self, directory: &FsPath) -> (r: Option<usize>)
        ensures
            match r {
                Some(i) => expanded_paths(self.expanded_directories@).index_of_first(directory@) == Some(i as int),
                None => expanded_paths(self.expanded_directories@).index_of_first(directory@) is None,
            },
    {
        let ghost v = expanded_paths(self.expanded_directories@);
        proof {
            v.index_of_first_ensures(directory@);
        }
        let mut i: usize = 0;
        while i < self.expanded_directories.len()
            invariant
                i <= self.expanded_directories@.len(),
                v == expanded_paths(self.expanded_directories@),
                forall|j: int| 0 <= j < i ==> v[j] != directory@,
            decreases self.expanded_directories.len() - i,
        {
            proof {
                assert(v[i as int] == self.expanded_directories@[i as int].path@);
            }
            if self.expanded_directories[i].path.same_path(directory) {
                proof {
                    v.index_of_first_ensures(directory@);
                    assert(v.contains(directory@));
                    let k = v.index_of_first(directory@).unwrap();
                    if k < i {
                        assert(v[k] != directory@);
                    }
                    if k > i {
                        assert(v[i as int] != directory@);
                    }
                }
                return Some(i);
            }
            i = i + 1;
        }
        proof {
            if v.contains(directory@) {
                let k = choose|k: int| 0 <= k < v.len() && v[k] == directory@;
                assert(v[k] != directory@);
            }
        }
        None
    }

    /// The paths listed in `directory`: see [`FileBrowser::entries_in`].
    pub fn entry_paths_in_directory(&self, directory: &FsPath) -> (r: Vec<FsPath>)
        ensures
            paths_view(r@) == self.entries_in(directory@),
    {
        if directory.same_path(&self.current_dir) {
            return entry_path_list(&self.entries);
        }
        let found = self.expanded_position(directory);
        proof {
            expanded_paths(self.expanded_directories@).index_of_first_ensures(directory@);
        }
        match found {
            Some(i) => entry_path_list(&self.expanded_directories[i].entries),
            None => {
                let r: Vec<FsPath> = Vec::new();
                proof {
                    assert(paths_view(r@) =~= Seq::<PathModel>::empty());
                }
                r
            },
        }
    }

    /// The children of `directory` are being loaded.
    pub fn directory_children_are_loading(&self, directory: &FsPath) -> (r: bool)
        ensures
            r == match expanded_paths(self.expanded_directories@).index_of_first(directory@) {
                Some(i) => self.expanded_directories@[i].status == ExpandedDirectoryStatus::Loading,
                None => false,
            },
    {
        let found = self.expanded_position(directory);
        proof {
            expanded_paths(self.expanded_directories@).index_of_first_ensures(directory@);
        }
        match found {
            Some(i) => self.expanded_directories[i].status == ExpandedDirectoryStatus::Loading,
            None => false,
        }
    }

    /// The child of `directory` that keyboard focus moves to: the preferred
    /// child when it is listed there, else the first child.
    pub fn keyboard_child_focus_target(&self, directory: &FsPath, preferred_child: Option<&FsPath>) -> (r: Option<FsPath>)
        ensures
            ({
                let paths = self.entries_in(directory@);
                match preferred_child {
                    Some(p) if paths.contains(p@) => r matches Some(q) && q@ == p@,
                    _ => if paths.len() > 0 {
                        r matches Some(q) && q@ == paths[0]
                    } else {
                        r is None
                    },
                }
            }),
    {
        let paths = self.entry_paths_in_directory(directory);
        if let Some(preferred) = preferred_child {
            let found = path_position(paths.as_slice(), preferred);
            proof {
                paths_view(paths@).index_of_first_ensures(preferred@);
            }
            if found.is_some() {
                return Some(preferred.copy());
            }
        }
        if paths.len() > 0 {
            proof {
                assert(paths_view(paths@)[0] == paths@[0]@);
            }
            Some(paths[0].copy())
        } else {
            None
        }
    }

    /// The paths a range selection from `anchor` to `target` covers, both
    /// included, in display order. In the icon grid both must share the
    /// target's directory (the current one when it has no parent) and the
    /// range runs over that directory's entries; elsewhere it runs over
    /// `visible_paths`, the entries as displayed. When either end is not
    /// found only the target is covered.
    pub fn visible_range_paths(&self, anchor: &FsPath, target: &FsPath, visible_paths: &[FsPath]) -> (r: Vec<FsPath>)
        ensures
            ({
                let target_directory = match path_parent(target@) {
                    Some(p) => p,
                    None => self.current_dir@,
                };
                let icons = self.view_mode == BrowserViewMode::Icons;
                let paths = if icons {
                    self.entries_in(target_directory)
                } else {
                    paths_view(visible_paths@)
                };
                if icons && path_parent(anchor@) != Some(target_directory) {
                    paths_view(r@) == seq![target@]
                } else {
                    match (paths.index_of_first(anchor@), paths.index_of_first(target@)) {
                        (Some(a), Some(t)) => paths_view(r@) == if a <= t {
                            paths.subrange(a, t + 1)
                        } else {
                            paths.subrange(t, a + 1)
                        },
                        _ => paths_view(r@) == seq![target@],
                    }
                }
            }),
    {
        let only_target = {
            let mut v: Vec<FsPath> = Vec::new();
            v.push(target.copy());
            proof {
                assert(paths_view(v@) =~= seq![target@]);
            }
            v
        };
        let paths = if self.view_mode == BrowserViewMode::Icons {
            let target_directory = match target.parent() {
                Some(p) => p,
                None => self.current_dir.copy(),
            };
            let same_parent = match anchor.parent() {
                Some(p) => p.same_path(&target_directory),
                None => false,
            };
            if !same_parent {
                return only_target;
            }
            self.entry_paths_in_directory(&target_directory)
        } else {
            copy_paths(visible_paths)
        };
        let ghost v = paths_view(paths@);
        proof {
            v.index_of_first_ensures(anchor@);
            v.index_of_first_ensures(target@);
        }
        let anchor_index = match path_position(paths.as_slice(), anchor) {
            Some(i) => i,
            None => return only_target,
        };
        let target_index = match path_position(paths.as_slice(), target) {
            Some(i) => i,
            None => return only_target,
        };
        let (start, end) = if anchor_index <= target_index {
            (anchor_index, target_index)
        } else {
            (target_index, anchor_index)
        };
        let n = paths.len();
        let mut r: Vec<FsPath> = Vec::new();
        let mut i: usize = start;
        while i <= end
            invariant
                start <= i <= end + 1,
                end < n,
                n == paths@.len(),
                v == paths_view(paths@),
                paths_view(r@) == v.subrange(start as int, i as int),
            decreases end + 1 - i,
        {
            let ghost before = paths_view(r@);
            r.push(paths[i].copy());
            proof {
                assert(paths_view(r@) =~= before.push(v[i as int]));
                assert(v.subrange(start as int, i + 1) =~= v.subrange(start as int, i as int).push(v[i as int]));
            }
            i = i + 1;
        }
        r
    }
}

/// The paths of a list of entries.
pub fn entry_path_list(entries: &Vec<crate::browser::DirectoryEntry>) -> (r: Vec<FsPath>)
    ensures
        paths_view(r@) == entry_paths(entries_view(entries@)),
{
    let mut r: Vec<FsPath> = Vec::new();
    let mut i: usize = 0;
    while i < entries.len()
        invariant
            i <= entries@.len(),
            paths_view(r@) == entry_paths(entries_view(entries@)).take(i as int),
        decreases entries.len() - i,
    {
        let ghost before = paths_view(r@);
        r.push(entries[i].path.copy());
        proof {
            assert(paths_view(r@) =~= before.push(entries@[i as int].path@));
            assert(entry_paths(entries_view(entries@)).take(i + 1) =~= entry_paths(entries_view(entries@)).take(
                i as int,
            ).push(entries@[i as int].path@));
        }
        i = i + 1;
    }
    assert(entry_paths(entries_view(entries@)).take(i as int) =~= entry_paths(entries_view(entries@)));
    r
}

} // verus!
