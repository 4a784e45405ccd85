use vstd::prelude::*;

use crate::browser::{BrowserPane, BrowserTab, DirectoryEntry};
use crate::drag::{copy_paths, paths_view};
use crate::fs_path::PathModel;
use crate::model::{BrowserPaneId, BrowserViewMode, FileKind, copy_opt_path, opt_path_view};

verus! {

/// The meaning of a [`DirectoryEntry`].
pub struct EntryModel {
    pub path: PathModel,
    pub kind: FileKind,
}

impl View for DirectoryEntry {
    type V = EntryModel;

    open spec fn view(&self) -> EntryModel {
        EntryModel { path: self.path@, kind: self.kind }
    }
}

/// The meanings of a list of entries.
pub open spec fn entries_view(entries: Seq<DirectoryEntry>) -> Seq<EntryModel> {
    entries.map_values(|e: DirectoryEntry| e@)
}

impl DirectoryEntry {
    /// A copy of this entry.
    pub fn copy(&self) -> (r: DirectoryEntry)
        ensures
            r@ == self@,
    {
        DirectoryEntry { path: self.path.copy(), kind: self.kind }
    }
}

/// A copy of a list of entries.
pub fn copy_entries(entries: &Vec<DirectoryEntry>) -> (r: Vec<DirectoryEntry>)
    ensures
        entries_view(r@) == entries_view(entries@),
{
    let mut r: Vec<DirectoryEntry> = Vec::new();
    let mut i: usize = 0;
    while i < entries.len()
        invariant
            i <= entries@.len(),
            r@.len() == i,
            forall|j: int| 0 <= j < i ==> (#[trigger] r@[j])@ == entries@[j]@,
        decreases entries.len() - i,
    {
        r.push(entries[i].copy());
        i = i + 1;
    }
    assert(entries_view(r@) =~= entries_view(entries@));
    r
}

/// The meaning of a [`BrowserTab`].
pub struct TabModel {
    pub id: usize,
    pub directory: PathModel,
    pub is_trash_view: bool,
    pub view_mode: BrowserViewMode,
    pub deepest_open_column_directory: Option<PathModel>,
    pub entries: Seq<EntryModel>,
    pub selected: Option<PathModel>,
    pub selected_paths: Seq<PathModel>,
    pub back_stack: Seq<PathModel>,
    pub forward_stack: Seq<PathModel>,
}

impl View for BrowserTab {
    type V = TabModel;

    open spec fn view(&self) -> TabModel {
        TabModel {
            id: self.id,
            directory: self.directory@,
            is_trash_view: self.is_trash_view,
            view_mode: self.view_mode,
            deepest_open_column_directory: opt_path_view(self.deepest_open_column_directory),
            entries: entries_view(self.entries@),
            selected: opt_path_view(self.selected),
            selected_paths: paths_view(self.selected_paths@),
            back_stack: paths_view(self.back_stack@),
            forward_stack: paths_view(self.forward_stack@),
        }
    }
}

/// The meanings of a list of tabs.
pub open spec fn tabs_view(tabs: Seq<BrowserTab>) -> Seq<TabModel> {
    tabs.map_values(|t: BrowserTab| t@)
}

/// The ids of a list of tabs, in order.
pub open spec fn tab_ids(tabs: Seq<TabModel>) -> Seq<usize> {
    tabs.map_values(|t: TabModel| t.id)
}

impl BrowserTab {
    /// A copy of this tab.
    pub fn copy(&self) -> (r: BrowserTab)
        ensures
            r@ == self@,
    {
        BrowserTab {
            id: self.id,
            directory: self.directory.copy(),
            is_trash_view: self.is_trash_view,
            view_mode: self.view_mode,
            deepest_open_column_directory: copy_opt_path(&self.deepest_open_column_directory),
            entries: copy_entries(&self.entries),
            selected: copy_opt_path(&self.selected),
            selected_paths: copy_paths(self.selected_paths.as_slice()),
            back_stack: copy_paths(self.back_stack.as_slice()),
            forward_stack: copy_paths(self.forward_stack.as_slice()),
        }
    }
}

/// A copy of a list of tabs.
pub fn copy_tabs(tabs: &Vec<BrowserTab>) -> (r: Vec<BrowserTab>)
    ensures
        tabs_view(r@) == tabs_view(tabs@),
{
    let mut r: Vec<BrowserTab> = Vec::new();
    let mut i: usize = 0;
    while i < tabs.len()
        invariant
            i <= tabs@.len(),
            r@.len() == i,
            forall|j: int| 0 <= j < i ==> (#[trigger] r@[j])@ == tabs@[j]@,
        decreases tabs.len() - i,
    {
        r.push(tabs[i].copy());
        i = i + 1;
    }
    assert(tabs_view(r@) =~= tabs_view(tabs@));
    r
}

/// The meaning of a [`BrowserPane`].
pub struct PaneModel {
    pub id: BrowserPaneId,
    pub current_dir: PathModel,
    pub is_trash_view: bool,
    pub view_mode: BrowserViewMode,
    pub deepest_open_column_directory: Option<PathModel>,
    pub entries: Seq<EntryModel>,
    pub selected: Option<PathModel>,
    pub selected_paths: Seq<PathModel>,
    pub tabs: Seq<TabModel>,
    pub active_tab_id: usize,
    pub path_input: Seq<char>,
    pub back_stack: Seq<PathModel>,
    pub forward_stack: Seq<PathModel>,
    pub is_loading: bool,
}

impl View for BrowserPane {
    type V = PaneModel;

    open spec fn view(&self) -> PaneModel {
        PaneModel {
            id: self.id,
            current_dir: self.current_dir@,
            is_trash_view: self.is_trash_view,
            view_mode: self.view_mode,
            deepest_open_column_directory: opt_path_view(self.deepest_open_column_directory),
            entries: entries_view(self.entries@),
            selected: opt_path_view(self.selected),
            selected_paths: paths_view(self.selected_paths@),
            tabs: tabs_view(self.tabs@),
            active_tab_id: self.active_tab_id,
            path_input: self.path_input@,
            back_stack: paths_view(self.back_stack@),
            forward_stack: paths_view(self.forward_stack@),
            is_loading: self.is_loading,
        }
    }
}

/// The meanings of a list of panes.
pub open spec fn panes_view(panes: Seq<BrowserPane>) -> Seq<PaneModel> {
    panes.map_values(|p: BrowserPane| p@)
}

impl BrowserPane {
    /// A copy of this pane.
    pub fn copy(&self) -> (r: BrowserPane)
        ensures
            r@ == self@,
    {
        BrowserPane {
            id: self.id,
            current_dir: self.current_dir.copy(),
            is_trash_view: self.is_trash_view,
            view_mode: self.view_mode,
            deepest_open_column_directory: copy_opt_path(&self.deepest_open_column_directory),
            entries: copy_entries(&self.entries),
            selected: copy_opt_path(&self.selected),
            selected_paths: copy_paths(self.selected_paths.as_slice()),
            tabs: copy_tabs(&self.tabs),
            active_tab_id: self.active_tab_id,
            path_input: self.path_input.clone(),
            back_stack: copy_paths(self.back_stack.as_slice()),
            forward_stack: copy_paths(self.forward_stack.as_slice()),
            is_loading: self.is_loading,
        }
    }
}

} // verus!
