use vstd::prelude::*;

use crate::browser::{BrowserPane, BrowserPaneLayout, BrowserTab, FileBrowser, SplitAxis, find_pane, find_tab};
use crate::drag::{copy_paths, paths_view};
use crate::fs_path::path_text_of;
use crate::model::{BrowserPaneId, KeyboardModifiers, copy_opt_path, opt_path_view};
use crate::tabs::{SplitRegion, TabAnimationKind, TabDragMode, TabDragState, animations_started_all};
use crate::tab_state::{
    PaneModel, TabModel, copy_entries, copy_tabs, entries_view, panes_view, tab_ids, tabs_view,
};

verus! {

/// The ids of a list of panes, in order.
pub open spec fn pane_ids(panes: Seq<PaneModel>) -> Seq<BrowserPaneId> {
    panes.map_values(|p: PaneModel| p.id)
}

/// The label a pane's path field shows for the trash.
pub open spec fn trash_label() -> Seq<char> {
    seq!['T', 'r', 'a', 's', 'h']
}

/// The text of a pane's path field while `tab` is shown: the trash label
/// for a trash tab, otherwise the directory's path.
pub open spec fn path_input_text(tab: TabModel) -> Seq<char> {
    if tab.is_trash_view {
        trash_label()
    } else {
        path_text_of(tab.directory)
    }
}

/// The pane `pane` showing `tab`: the view state comes from the tab, the
/// path field shows it, and nothing is loading.
pub open spec fn pane_showing(pane: PaneModel, tab: TabModel) -> PaneModel {
    PaneModel {
        current_dir: tab.directory,
        is_trash_view: tab.is_trash_view,
        view_mode: tab.view_mode,
        deepest_open_column_directory: tab.deepest_open_column_directory,
        entries: tab.entries,
        selected: tab.selected,
        selected_paths: tab.selected_paths,
        path_input: path_input_text(tab),
        back_stack: tab.back_stack,
        forward_stack: tab.forward_stack,
        is_loading: false,
        ..pane
    }
}

/// `tab` holding the view state of `pane`.
pub open spec fn tab_from_pane(tab: TabModel, pane: PaneModel) -> TabModel {
    TabModel {
        directory: pane.current_dir,
        is_trash_view: pane.is_trash_view,
        view_mode: pane.view_mode,
        deepest_open_column_directory: pane.deepest_open_column_directory,
        entries: pane.entries,
        selected: pane.selected,
        selected_paths: pane.selected_paths,
        back_stack: pane.back_stack,
        forward_stack: pane.forward_stack,
        ..tab
    }
}

/// The pane with its active tab (the first with its id) holding the pane's view state.
pub open spec fn pane_synced(pane: PaneModel) -> PaneModel {
    match tab_ids(pane.tabs).index_of_first(pane.active_tab_id) {
        Some(i) => PaneModel { tabs: pane.tabs.update(i, tab_from_pane(pane.tabs[i], pane)), ..pane },
        None => pane,
    }
}

/// A pane made from `tab` alone, showing it.
pub open spec fn pane_of_tab(pane_id: BrowserPaneId, tab: TabModel) -> PaneModel {
    pane_synced(
        PaneModel {
            id: pane_id,
            current_dir: tab.directory,
            is_trash_view: tab.is_trash_view,
            view_mode: tab.view_mode,
            deepest_open_column_directory: tab.deepest_open_column_directory,
            entries: tab.entries,
            selected: tab.selected,
            selected_paths: tab.selected_paths,
            tabs: seq![tab],
            active_tab_id: tab.id,
            path_input: path_input_text(tab),
            back_stack: tab.back_stack,
            forward_stack: tab.forward_stack,
            is_loading: false,
        },
    )
}

/// `tab` holding the browser's current view state.
pub open spec fn tab_with_browser_state(browser: FileBrowser, tab: TabModel) -> TabModel {
    TabModel {
        directory: browser.current_dir@,
        is_trash_view: browser.is_trash_view,
        view_mode: browser.view_mode,
        deepest_open_column_directory: opt_path_view(browser.deepest_open_column_directory),
        entries: entries_view(browser.entries@),
        selected: opt_path_view(browser.selected),
        selected_paths: paths_view(browser.selected_paths@),
        back_stack: paths_view(browser.back_stack@),
        forward_stack: paths_view(browser.forward_stack@),
        ..tab
    }
}

/// The browser's tabs with the active one holding the current view state.
pub open spec fn synced_tabs(browser: FileBrowser) -> Seq<TabModel> {
    let tabs = tabs_view(browser.tabs@);
    match tab_ids(tabs).index_of_first(browser.active_tab_id) {
        Some(i) => tabs.update(i, tab_with_browser_state(browser, tabs[i])),
        None => tabs,
    }
}

/// Every id of `ids` is below `next` and no two are equal: `next` is free.
pub open spec fn ids_fresh_below(ids: Seq<usize>, next: usize) -> bool {
    &&& forall|i: int| 0 <= i < ids.len() ==> #[trigger] ids[i] < next
    &&& forall|i: int, j: int| 0 <= i < j < ids.len() ==> #[trigger] ids[i] != #[trigger] ids[j]
}

/// Bringing the active tab up to date keeps every tab's id.
pub proof fn lemma_synced_tabs_keep_ids(browser: FileBrowser)
    ensures
        tab_ids(synced_tabs(browser)) == tab_ids(tabs_view(browser.tabs@)),
{
    let tabs = tabs_view(browser.tabs@);
    tab_ids(tabs).index_of_first_ensures(browser.active_tab_id);
    assert(tab_ids(synced_tabs(browser)) =~= tab_ids(tabs));
}

/// `pane` holding the browser's current view state and the tabs `tabs`.
pub open spec fn pane_with_browser_state(browser: FileBrowser, tabs: Seq<TabModel>, pane: PaneModel) -> PaneModel {
    PaneModel {
        current_dir: browser.current_dir@,
        is_trash_view: browser.is_trash_view,
        view_mode: browser.view_mode,
        deepest_open_column_directory: opt_path_view(browser.deepest_open_column_directory),
        entries: entries_view(browser.entries@),
        selected: opt_path_view(browser.selected),
        selected_paths: paths_view(browser.selected_paths@),
        tabs,
        active_tab_id: browser.active_tab_id,
        back_stack: paths_view(browser.back_stack@),
        forward_stack: paths_view(browser.forward_stack@),
        is_loading: browser.is_loading,
        ..pane
    }
}

/// The panes with the active one (the first with its id) holding the
/// browser's current view state and `tabs`.
pub open spec fn synced_panes(browser: FileBrowser, tabs: Seq<TabModel>) -> Seq<PaneModel> {
    let panes = panes_view(browser.panes@);
    match pane_ids(panes).index_of_first(browser.active_pane()) {
        Some(j) => panes.update(j, pane_with_browser_state(browser, tabs, panes[j])),
        None => panes,
    }
}

/// The path field's text while `tab` is shown: see [`path_input_text`].
pub fn path_input_for_tab(tab: &BrowserTab) -> (r: String)
    ensures
        r@ == path_input_text(tab@),
{
    if tab.is_trash_view {
        let r = String::from_str("Trash");
        proof {
            reveal_strlit("Trash");
        }
        r
    } else {
        tab.directory.path_text()
    }
}

/// The first position of a tab with id `tab_id` among `tabs`.
pub fn tab_index(tabs: &Vec<BrowserTab>, tab_id: usize) -> (r: Option<usize>)
    ensures
        match r {
            Some(i) => tab_ids(tabs_view(tabs@)).index_of_first(tab_id) == Some(i as int),
            None => tab_ids(tabs_view(tabs@)).index_of_first(tab_id) is None,
        },
{
    let ghost ids = tab_ids(tabs_view(tabs@));
    proof {
        ids.index_of_first_ensures(tab_id);
    }
    let found = find_tab(tabs, tab_id);
    proof {
        match found {
            Some(i) => {
                assert(ids[i as int] == tab_id);
                assert(ids.contains(tab_id));
                let k = ids.index_of_first(tab_id).unwrap();
                if k < i {
                    assert(tabs@[k].id != tab_id);
                }
                if k > i {
                    assert(ids[i as int] != tab_id);
                }
            },
            None => {
                if ids.contains(tab_id) {
                    let k = choose|k: int| 0 <= k < ids.len() && ids[k] == tab_id;
                    assert(tabs@[k].id != tab_id);
                }
            },
        }
    }
    found
}

/// The first position of a pane with id `pane_id` among `panes`.
pub fn pane_index(panes: &Vec<BrowserPane>, pane_id: BrowserPaneId) -> (r: Option<usize>)
    ensures
        match r {
            Some(i) => pane_ids(panes_view(panes@)).index_of_first(pane_id) == Some(i as int),
            None => pane_ids(panes_view(panes@)).index_of_first(pane_id) is None,
        },
{
    let ghost ids = pane_ids(panes_view(panes@));
    proof {
        ids.index_of_first_ensures(pane_id);
    }
    let found = find_pane(panes, pane_id);
    proof {
        match found {
            Some(i) => {
                assert(ids[i as int] == pane_id);
                assert(ids.contains(pane_id));
                let k = ids.index_of_first(pane_id).unwrap();
                if k < i {
                    assert(panes@[k].id != pane_id);
                }
                if k > i {
                    assert(ids[i as int] != pane_id);
                }
            },
            None => {
                if ids.contains(pane_id) {
                    let k = choose|k: int| 0 <= k < ids.len() && ids[k] == pane_id;
                    assert(panes@[k].id != pane_id);
                }
            },
        }
    }
    found
}

impl BrowserPane {
    /// Stores the pane's view state in its active tab: see [`pane_synced`].
    pub fn sync_active_tab_state(&mut self)
        ensures
            final(self)@ == pane_synced(old(self)@),
    {
        let found = tab_index(&self.tabs, self.active_tab_id);
        proof {
            tab_ids(tabs_view(self.tabs@)).index_of_first_ensures(self.active_tab_id);
        }
        if let Some(i) = found {
            let ghost before = self@;
            let tab = BrowserTab {
                id: self.tabs[i].id,
                directory: self.current_dir.copy(),
                is_trash_view: self.is_trash_view,
                view_mode: self.view_mode,
                deepest_open_column_directory: copy_opt_path(&self.deepest_open_column_directory),
                entries: copy_entries(&self.entries),
                selected: copy_opt_path(&self.selected),
                selected_paths: copy_paths(self.selected_paths.as_slice()),
                back_stack: copy_paths(self.back_stack.as_slice()),
                forward_stack: copy_paths(self.forward_stack.as_slice()),
            };
            proof {
                assert(tab@ == tab_from_pane(before.tabs[i as int], before));
            }
            self.tabs.set(i, tab);
            proof {
                assert(tabs_view(self.tabs@) =~= before.tabs.update(i as int, tab@));
            }
        }
    }
}

/// Shows `tab` in `pane` and stores the pane's view state back in its
/// active tab: see [`pane_showing`] and [`pane_synced`].
pub fn apply_tab_to_pane(pane: &mut BrowserPane, tab: &BrowserTab)
    ensures
        final(pane)@ == pane_synced(pane_showing(old(pane)@, tab@)),
{
    pane.current_dir = tab.directory.copy();
    pane.is_trash_view = tab.is_trash_view;
    pane.view_mode = tab.view_mode;
    pane.deepest_open_column_directory = copy_opt_path(&tab.deepest_open_column_directory);
    pane.entries = copy_entries(&tab.entries);
    pane.selected = copy_opt_path(&tab.selected);
    pane.selected_paths = copy_paths(tab.selected_paths.as_slice());
    pane.path_input = path_input_for_tab(tab);
    pane.back_stack = copy_paths(tab.back_stack.as_slice());
    pane.forward_stack = copy_paths(tab.forward_stack.as_slice());
    pane.is_loading = false;
    proof {
        assert(pane@ == pane_showing(old(pane)@, tab@));
    }
    pane.sync_active_tab_state();
}

/// Shows the pane's active tab (the first with its id), if it has one.
pub fn apply_active_tab_to_pane(pane: &mut BrowserPane)
    ensures
        match tab_ids(old(pane)@.tabs).index_of_first(old(pane)@.active_tab_id) {
            Some(i) => final(pane)@ == pane_synced(pane_showing(old(pane)@, old(pane)@.tabs[i])),
            None => final(pane)@ == old(pane)@,
        },
{
    let found = tab_index(&pane.tabs, pane.active_tab_id);
    proof {
        tab_ids(tabs_view(pane.tabs@)).index_of_first_ensures(pane.active_tab_id);
    }
    if let Some(i) = found {
        let tab = pane.tabs[i].copy();
        apply_tab_to_pane(pane, &tab);
    }
}

/// A new pane with id `pane_id` holding `tab` alone: see [`pane_of_tab`].
pub fn pane_from_tab(pane_id: BrowserPaneId, tab: BrowserTab) -> (r: BrowserPane)
    ensures
        r@ == pane_of_tab(pane_id, tab@),
{
    let path_input = path_input_for_tab(&tab);
    let mut pane = BrowserPane {
        id: pane_id,
        current_dir: tab.directory.copy(),
        is_trash_view: tab.is_trash_view,
        view_mode: tab.view_mode,
        deepest_open_column_directory: copy_opt_path(&tab.deepest_open_column_directory),
        entries: copy_entries(&tab.entries),
        selected: copy_opt_path(&tab.selected),
        selected_paths: copy_paths(tab.selected_paths.as_slice()),
        tabs: Vec::new(),
        active_tab_id: tab.id,
        path_input,
        back_stack: copy_paths(tab.back_stack.as_slice()),
        forward_stack: copy_paths(tab.forward_stack.as_slice()),
        is_loading: false,
    };
    let ghost t = tab@;
    pane.tabs.push(tab);
    proof {
        assert(tabs_view(pane.tabs@) =~= seq![t]);
    }
    pane.sync_active_tab_state();
    pane
}

impl FileBrowser {
    /// Stores the browser's view state in the active pane (the first with
    /// its id): see [`synced_panes`].
    pub fn sync_active_pane_state(&mut self)
        ensures
            panes_view(final(self).panes@) == synced_panes(*old(self), tabs_view(old(self).tabs@)),
            *final(self) == (FileBrowser { panes: final(self).panes, ..*old(self) }),
    {
        let found = pane_index(&self.panes, self.active_pane_id());
        proof {
            pane_ids(panes_view(self.panes@)).index_of_first_ensures(self.active_pane());
        }
        if let Some(j) = found {
            let ghost before = *self;
            let pane = BrowserPane {
                id: self.panes[j].id,
                current_dir: self.current_dir.copy(),
                is_trash_view: self.is_trash_view,
                view_mode: self.view_mode,
                deepest_open_column_directory: copy_opt_path(&self.deepest_open_column_directory),
                entries: copy_entries(&self.entries),
                selected: copy_opt_path(&self.selected),
                selected_paths: copy_paths(self.selected_paths.as_slice()),
                tabs: copy_tabs(&self.tabs),
                active_tab_id: self.active_tab_id,
                path_input: self.panes[j].path_input.clone(),
                back_stack: copy_paths(self.back_stack.as_slice()),
                forward_stack: copy_paths(self.forward_stack.as_slice()),
                is_loading: self.is_loading,
            };
            proof {
                assert(pane@ == pane_with_browser_state(before, tabs_view(before.tabs@), panes_view(before.panes@)[j as int]));
            }
            self.panes.set(j, pane);
            proof {
                assert(panes_view(self.panes@) =~= panes_view(before.panes@).update(j as int, pane@));
            }
        }
    }

    /// Stores the browser's view state in the active tab and then in the
    /// active pane: see [`synced_tabs`] and [`synced_panes`].
    pub fn sync_active_tab_state(&mut self)
        ensures
            tabs_view(final(self).tabs@) == synced_tabs(*old(self)),
            final(self).tabs@.len() == old(self).tabs@.len(),
            panes_view(final(self).panes@) == synced_panes(*old(self), synced_tabs(*old(self))),
            *final(self) == (FileBrowser { tabs: final(self).tabs, panes: final(self).panes, ..*old(self) }),
    {
        let found = tab_index(&self.tabs, self.active_tab_id);
        proof {
            tab_ids(tabs_view(self.tabs@)).index_of_first_ensures(self.active_tab_id);
        }
        if let Some(i) = found {
            let ghost before = *self;
            let tab = BrowserTab {
                id: self.tabs[i].id,
                directory: self.current_dir.copy(),
                is_trash_view: self.is_trash_view,
                view_mode: self.view_mode,
                deepest_open_column_directory: copy_opt_path(&self.deepest_open_column_directory),
                entries: copy_entries(&self.entries),
                selected: copy_opt_path(&self.selected),
                selected_paths: copy_paths(self.selected_paths.as_slice()),
                back_stack: copy_paths(self.back_stack.as_slice()),
                forward_stack: copy_paths(self.forward_stack.as_slice()),
            };
            proof {
                assert(tab@ == tab_with_browser_state(before, tabs_view(before.tabs@)[i as int]));
            }
            self.tabs.set(i, tab);
            proof {
                assert(tabs_view(self.tabs@) =~= tabs_view(before.tabs@).update(i as int, tab@));
            }
        }
        self.sync_active_pane_state();
    }

    /// Makes the browser show `pane`: its view state, tabs and active tab.
    pub fn restore_pane_snapshot(&mut self, pane: BrowserPane)
        ensures
            final(self).current_dir@ == pane@.current_dir,
            final(self).is_trash_view == pane@.is_trash_view,
            final(self).view_mode == pane@.view_mode,
            opt_path_view(final(self).deepest_open_column_directory) == pane@.deepest_open_column_directory,
            entries_view(final(self).entries@) == pane@.entries,
            opt_path_view(final(self).selected) == pane@.selected,
            paths_view(final(self).selected_paths@) == pane@.selected_paths,
            tabs_view(final(self).tabs@) == pane@.tabs,
            final(self).active_tab_id == pane@.active_tab_id,
            paths_view(final(self).back_stack@) == pane@.back_stack,
            paths_view(final(self).forward_stack@) == pane@.forward_stack,
            final(self).is_loading == pane@.is_loading,
            *final(self) == (FileBrowser {
                current_dir: final(self).current_dir,
                is_trash_view: final(self).is_trash_view,
                view_mode: final(self).view_mode,
                deepest_open_column_directory: final(self).deepest_open_column_directory,
                entries: final(self).entries,
                selected: final(self).selected,
                selected_paths: final(self).selected_paths,
                tabs: final(self).tabs,
                active_tab_id: final(self).active_tab_id,
                back_stack: final(self).back_stack,
                forward_stack: final(self).forward_stack,
                is_loading: final(self).is_loading,
                ..*old(self)
            }),
    {
        self.current_dir = pane.current_dir;
        self.is_trash_view = pane.is_trash_view;
        self.view_mode = pane.view_mode;
        self.deepest_open_column_directory = pane.deepest_open_column_directory;
        self.entries = pane.entries;
        self.selected = pane.selected;
        self.selected_paths = pane.selected_paths;
        self.tabs = pane.tabs;
        self.active_tab_id = pane.active_tab_id;
        self.back_stack = pane.back_stack;
        self.forward_stack = pane.forward_stack;
        self.is_loading = pane.is_loading;
    }
}


/// One more than the largest pane number in use (zero when there is no pane).
pub open spec fn fresh_pane_number(panes: Seq<PaneModel>) -> int
    decreases panes.len(),
{
    if panes.len() == 0 {
        0
    } else {
        let rest = fresh_pane_number(panes.drop_last());
        let here = panes.last().id.0 + 1;
        if here > rest {
            here
        } else {
            rest
        }
    }
}

/// Every pane number leaves room for a larger one.
pub open spec fn pane_numbers_bounded(panes: Seq<BrowserPane>) -> bool {
    forall|i: int| 0 <= i < panes.len() ==> (#[trigger] panes[i]).id.0 < u64::MAX
}

/// The axis a split onto `region` divides the window along: side by side
/// for the left and right regions, one above the other for top and bottom.
pub open spec fn region_axis(region: SplitRegion) -> SplitAxis {
    match region {
        SplitRegion::Left | SplitRegion::Right => SplitAxis::Horizontal,
        SplitRegion::Top | SplitRegion::Bottom => SplitAxis::Vertical,
    }
}

/// The left and top regions put the dragged tab's pane first.
pub open spec fn dragged_first(region: SplitRegion) -> bool {
    region == SplitRegion::Left || region == SplitRegion::Top
}

impl SplitRegion {
    /// See [`region_axis`].
    pub fn axis(&self) -> (r: SplitAxis)
        ensures
            r == region_axis(*self),
    {
        match self {
            SplitRegion::Left | SplitRegion::Right => SplitAxis::Horizontal,
            SplitRegion::Top | SplitRegion::Bottom => SplitAxis::Vertical,
        }
    }

    /// See [`dragged_first`].
    pub fn places_dragged_first(&self) -> (r: bool)
        ensures
            r == dragged_first(*self),
    {
        *self == SplitRegion::Left || *self == SplitRegion::Top
    }
}

/// `pane` after its tab at `k` (with id `tab_id`) is taken out. When that
/// tab was active, the tab now at its place, or the last one, becomes
/// active and is shown.
pub open spec fn pane_without_tab(pane: PaneModel, k: int, tab_id: usize) -> PaneModel {
    let rest = PaneModel { tabs: pane.tabs.remove(k), ..pane };
    if pane.active_tab_id == tab_id {
        let a = if k < rest.tabs.len() {
            k
        } else {
            rest.tabs.len() - 1
        };
        activate_tab(rest, rest.tabs[a].id)
    } else {
        rest
    }
}

/// `pane` with `tab_id` made active and its tab (the first with that id) shown.
pub open spec fn activate_tab(pane: PaneModel, tab_id: usize) -> PaneModel {
    let activated = PaneModel { active_tab_id: tab_id, ..pane };
    match tab_ids(activated.tabs).index_of_first(tab_id) {
        Some(i) => pane_synced(pane_showing(activated, activated.tabs[i])),
        None => activated,
    }
}

/// The tab that leaves pane `source` when its tab `tab_id` is dragged away:
/// the tab itself, or a copy under the next free tab id when it is the
/// pane's only tab.
pub open spec fn detach_tab(panes: Seq<PaneModel>, next_tab_id: usize, source: BrowserPaneId, tab_id: usize) -> Option<TabModel> {
    match pane_ids(panes).index_of_first(source) {
        None => None,
        Some(j) => match tab_ids(panes[j].tabs).index_of_first(tab_id) {
            None => None,
            Some(k) => if panes[j].tabs.len() == 1 {
                Some(TabModel { id: next_tab_id, ..panes[j].tabs[k] })
            } else {
                Some(panes[j].tabs[k])
            },
        },
    }
}

/// The panes after [`detach_tab`]: a pane with more than one tab loses it.
pub open spec fn detach_panes(panes: Seq<PaneModel>, source: BrowserPaneId, tab_id: usize) -> Seq<PaneModel> {
    match pane_ids(panes).index_of_first(source) {
        None => panes,
        Some(j) => match tab_ids(panes[j].tabs).index_of_first(tab_id) {
            None => panes,
            Some(k) => if panes[j].tabs.len() == 1 {
                panes
            } else {
                panes.update(j, pane_without_tab(panes[j], k, tab_id))
            },
        },
    }
}

/// The next free tab id after [`detach_tab`]: a copy uses one up.
pub open spec fn detach_next(panes: Seq<PaneModel>, next_tab_id: usize, source: BrowserPaneId, tab_id: usize) -> int {
    match pane_ids(panes).index_of_first(source) {
        None => next_tab_id as int,
        Some(j) => match tab_ids(panes[j].tabs).index_of_first(tab_id) {
            None => next_tab_id as int,
            Some(k) => if panes[j].tabs.len() == 1 {
                next_tab_id + 1
            } else {
                next_tab_id as int
            },
        },
    }
}

/// The browser shows `pane`: its view state, tabs and active tab.
pub open spec fn shows_pane(browser: FileBrowser, pane: PaneModel) -> bool {
    &&& browser.current_dir@ == pane.current_dir
    &&& browser.is_trash_view == pane.is_trash_view
    &&& browser.view_mode == pane.view_mode
    &&& opt_path_view(browser.deepest_open_column_directory) == pane.deepest_open_column_directory
    &&& entries_view(browser.entries@) == pane.entries
    &&& opt_path_view(browser.selected) == pane.selected
    &&& paths_view(browser.selected_paths@) == pane.selected_paths
    &&& tabs_view(browser.tabs@) == pane.tabs
    &&& browser.active_tab_id == pane.active_tab_id
    &&& paths_view(browser.back_stack@) == pane.back_stack
    &&& paths_view(browser.forward_stack@) == pane.forward_stack
    &&& browser.is_loading == pane.is_loading
}

/// `after` equals `before` except, at most, in the view state it shows and
/// in the listed fields.
pub open spec fn changed_only_view_state_and_panes(after: FileBrowser, before: FileBrowser) -> bool {
    after == (FileBrowser {
        current_dir: after.current_dir,
        is_trash_view: after.is_trash_view,
        view_mode: after.view_mode,
        deepest_open_column_directory: after.deepest_open_column_directory,
        entries: after.entries,
        selected: after.selected,
        selected_paths: after.selected_paths,
        tabs: after.tabs,
        active_tab_id: after.active_tab_id,
        back_stack: after.back_stack,
        forward_stack: after.forward_stack,
        is_loading: after.is_loading,
        panes: after.panes,
        pane_layout: after.pane_layout,
        next_tab_id: after.next_tab_id,
        ..before
    })
}

/// The view state `after` shows is that of `before`.
pub open spec fn same_view_state(after: FileBrowser, before: FileBrowser) -> bool {
    &&& after.current_dir == before.current_dir
    &&& after.is_trash_view == before.is_trash_view
    &&& after.view_mode == before.view_mode
    &&& after.deepest_open_column_directory == before.deepest_open_column_directory
    &&& after.entries == before.entries
    &&& after.selected == before.selected
    &&& after.selected_paths == before.selected_paths
    &&& after.tabs == before.tabs
    &&& after.active_tab_id == before.active_tab_id
    &&& after.back_stack == before.back_stack
    &&& after.forward_stack == before.forward_stack
    &&& after.is_loading == before.is_loading
}

/// The browser shows the pane with id `pane_id` in `panes`, if there is one,
/// and otherwise the view state of `before`.
pub open spec fn shows_pane_with_id(after: FileBrowser, before: FileBrowser, panes: Seq<PaneModel>, pane_id: BrowserPaneId) -> bool {
    match pane_ids(panes).index_of_first(pane_id) {
        Some(m) => shows_pane(after, panes[m]),
        None => same_view_state(after, before),
    }
}

/// The layout after a split drag onto `region`, with `destination` active.
pub open spec fn split_layout(region: SplitRegion, destination: BrowserPaneId, other: BrowserPaneId) -> BrowserPaneLayout {
    BrowserPaneLayout::Split {
        axis: region_axis(region),
        first: if dragged_first(region) {
            destination
        } else {
            other
        },
        second: if dragged_first(region) {
            other
        } else {
            destination
        },
        active: destination,
    }
}

/// The panes after the dragged tab is moved within or into the split pane
/// `destination`: dragged onto its own pane, the tab (when the pane has it)
/// becomes active; otherwise the tab leaves its pane and becomes the
/// destination pane's active tab.
pub open spec fn moved_panes(panes: Seq<PaneModel>, next_tab_id: usize, source: BrowserPaneId, tab_id: usize, destination: BrowserPaneId) -> Seq<PaneModel> {
    if destination == source {
        match pane_ids(panes).index_of_first(source) {
            Some(j) => if tab_ids(panes[j].tabs).contains(tab_id) {
                panes.update(j, activate_tab(panes[j], tab_id))
            } else {
                panes
            },
            None => panes,
        }
    } else {
        match detach_tab(panes, next_tab_id, source, tab_id) {
            None => panes,
            Some(t) => {
                let rest = detach_panes(panes, source, tab_id);
                match pane_ids(rest).index_of_first(destination) {
                    Some(m) => rest.update(
                        m,
                        pane_synced(pane_showing(PaneModel { tabs: rest[m].tabs.push(t), active_tab_id: t.id, ..rest[m] }, t)),
                    ),
                    None => rest,
                }
            },
        }
    }
}

impl FileBrowser {
    /// A pane id not in use: see [`fresh_pane_number`].
    pub fn new_pane_id(&self) -> (r: BrowserPaneId)
        requires
            pane_numbers_bounded(self.panes@),
        ensures
            r.0 == fresh_pane_number(panes_view(self.panes@)),
    {
        let ghost all = panes_view(self.panes@);
        let mut n: u64 = 0;
        let mut i: usize = 0;
        while i < self.panes.len()
            invariant
                i <= self.panes@.len(),
                all == panes_view(self.panes@),
                pane_numbers_bounded(self.panes@),
                n == fresh_pane_number(all.take(i as int)),
            decreases self.panes.len() - i,
        {
            proof {
                assert(all.take(i + 1).drop_last() =~= all.take(i as int));
                assert(self.panes@[i as int].id.0 < u64::MAX);
            }
            let here = self.panes[i].id.0 + 1;
            if here > n {
                n = here;
            }
            i = i + 1;
        }
        proof {
            assert(all.take(i as int) =~= all);
        }
        BrowserPaneId(n)
    }

    /// Takes tab `tab_id` out of pane `source` for a split drag: see
    /// [`detach_tab`], [`detach_panes`] and [`detach_next`].
    pub fn detach_or_copy_tab(&mut self, source_pane_id: BrowserPaneId, tab_id: usize) -> (r: Option<BrowserTab>)
        requires
            old(self).next_tab_id < usize::MAX,
        ensures
            match r {
                Some(t) => detach_tab(panes_view(old(self).panes@), old(self).next_tab_id, source_pane_id, tab_id) == Some(t@),
                None => detach_tab(panes_view(old(self).panes@), old(self).next_tab_id, source_pane_id, tab_id) is None,
            },
            panes_view(final(self).panes@) == detach_panes(panes_view(old(self).panes@), source_pane_id, tab_id),
            final(self).next_tab_id == detach_next(panes_view(old(self).panes@), old(self).next_tab_id, source_pane_id, tab_id),
            r is None ==> *final(self) == *old(self),
            *final(self) == (FileBrowser { panes: final(self).panes, next_tab_id: final(self).next_tab_id, ..*old(self) }),
    {
        let ghost panes = panes_view(self.panes@);
        let found = pane_index(&self.panes, source_pane_id);
        proof {
            pane_ids(panes).index_of_first_ensures(source_pane_id);
        }
        let j = match found {
            Some(j) => j,
            None => return None,
        };
        let found_tab = tab_index(&self.panes[j].tabs, tab_id);
        proof {
            assert(panes[j as int].tabs == tabs_view(self.panes@[j as int].tabs@));
            tab_ids(panes[j as int].tabs).index_of_first_ensures(tab_id);
        }
        let k = match found_tab {
            Some(k) => k,
            None => return None,
        };
        if self.panes[j].tabs.len() == 1 {
            let mut copied = self.panes[j].tabs[k].copy();
            copied.id = self.next_tab_id;
            self.next_tab_id = self.next_tab_id + 1;
            return Some(copied);
        }
        let mut pane = self.panes[j].copy();
        let ghost before = pane@;
        let tab = pane.tabs.remove(k);
        proof {
            assert(tabs_view(pane.tabs@) =~= before.tabs.remove(k as int));
        }
        if pane.active_tab_id == tab_id {
            let last = pane.tabs.len() - 1;
            let adjacent = if k < pane.tabs.len() {
                k
            } else {
                last
            };
            pane.active_tab_id = pane.tabs[adjacent].id;
            apply_active_tab_to_pane(&mut pane);
        }
        self.panes.set(j, pane);
        proof {
            assert(panes_view(self.panes@) =~= panes.update(j as int, pane@));
        }
        Some(tab)
    }

    /// Splits a single-pane window by dragging tab `tab_id` of pane
    /// `source_pane_id` onto `region`: the tab leaves its pane
    /// ([`detach_tab`]) and becomes a new pane with a fresh id, which is
    /// placed on the region's side, becomes active and is shown. When the
    /// tab is not found, nothing changes.
    pub fn split_single_pane_with_tab(&mut self, source_pane_id: BrowserPaneId, tab_id: usize, region: SplitRegion)
        requires
            old(self).next_tab_id < usize::MAX,
            pane_numbers_bounded(old(self).panes@),
        ensures
            ({
                let panes = panes_view(old(self).panes@);
                let d = BrowserPaneId(fresh_pane_number(panes) as u64);
                match detach_tab(panes, old(self).next_tab_id, source_pane_id, tab_id) {
                    None => *final(self) == *old(self),
                    Some(t) => {
                        &&& panes_view(final(self).panes@) == detach_panes(panes, source_pane_id, tab_id).push(pane_of_tab(d, t))
                        &&& final(self).next_tab_id == detach_next(panes, old(self).next_tab_id, source_pane_id, tab_id)
                        &&& final(self).pane_layout == split_layout(region, d, source_pane_id)
                        &&& shows_pane(*final(self), pane_of_tab(d, t))
                        &&& changed_only_view_state_and_panes(*final(self), *old(self))
                    },
                }
            }),
    {
        let destination_id = self.new_pane_id();
        let tab = match self.detach_or_copy_tab(source_pane_id, tab_id) {
            Some(tab) => tab,
            None => return,
        };
        let destination = pane_from_tab(destination_id, tab);
        let ghost before = panes_view(self.panes@);
        self.panes.push(destination.copy());
        proof {
            assert(panes_view(self.panes@) =~= before.push(destination@));
        }
        let (first, second) = if region.places_dragged_first() {
            (destination_id, source_pane_id)
        } else {
            (source_pane_id, destination_id)
        };
        self.pane_layout = BrowserPaneLayout::Split { axis: region.axis(), first, second, active: destination_id };
        self.restore_pane_snapshot(destination);
    }

    /// Drags tab `tab_id` of pane `source_pane_id` onto `region` of a split
    /// window whose panes are `first` and `second`. The pane on the
    /// region's side is the destination: the panes change as
    /// [`moved_panes`] says, the destination is placed on the region's side
    /// with the other pane opposite, becomes active and is shown. A tab
    /// that cannot leave its pane changes nothing.
    pub fn move_tab_to_split_side(
        &mut self,
        source_pane_id: BrowserPaneId,
        tab_id: usize,
        region: SplitRegion,
        first: BrowserPaneId,
        second: BrowserPaneId,
    )
        requires
            old(self).next_tab_id < usize::MAX,
        ensures
            ({
                let panes = panes_view(old(self).panes@);
                let d = if dragged_first(region) {
                    first
                } else {
                    second
                };
                let other = if d == first {
                    second
                } else {
                    first
                };
                if d != source_pane_id && detach_tab(panes, old(self).next_tab_id, source_pane_id, tab_id) is None {
                    *final(self) == *old(self)
                } else {
                    let moved = moved_panes(panes, old(self).next_tab_id, source_pane_id, tab_id, d);
                    &&& panes_view(final(self).panes@) == moved
                    &&& final(self).next_tab_id == if d == source_pane_id {
                        old(self).next_tab_id as int
                    } else {
                        detach_next(panes, old(self).next_tab_id, source_pane_id, tab_id)
                    }
                    &&& final(self).pane_layout == split_layout(region, d, other)
                    &&& shows_pane_with_id(*final(self), *old(self), moved, d)
                    &&& changed_only_view_state_and_panes(*final(self), *old(self))
                }
            }),
    {
        let destination_id = if region.places_dragged_first() {
            first
        } else {
            second
        };
        if destination_id == source_pane_id {
            self.activate_tab_in_pane(source_pane_id, tab_id);
        } else if !self.move_tab_into_pane(source_pane_id, tab_id, destination_id) {
            return;
        }
        let other_id = if destination_id == first {
            second
        } else {
            first
        };
        let (layout_first, layout_second) = if region.places_dragged_first() {
            (destination_id, other_id)
        } else {
            (other_id, destination_id)
        };
        self.pane_layout = BrowserPaneLayout::Split {
            axis: region.axis(),
            first: layout_first,
            second: layout_second,
            active: destination_id,
        };
        self.show_pane(destination_id);
    }

    /// Makes tab `tab_id` of pane `pane_id` active and shows it there, when
    /// the pane has it.
    pub fn activate_tab_in_pane(&mut self, pane_id: BrowserPaneId, tab_id: usize)
        ensures
            ({
                let panes = panes_view(old(self).panes@);
                panes_view(final(self).panes@) == match pane_ids(panes).index_of_first(pane_id) {
                    Some(j) => if tab_ids(panes[j].tabs).contains(tab_id) {
                        panes.update(j, activate_tab(panes[j], tab_id))
                    } else {
                        panes
                    },
                    None => panes,
                }
            }),
            *final(self) == (FileBrowser { panes: final(self).panes, ..*old(self) }),
    {
        let ghost panes = panes_view(self.panes@);
        let found = pane_index(&self.panes, pane_id);
        proof {
            pane_ids(panes).index_of_first_ensures(pane_id);
        }
        if let Some(j) = found {
            let mut pane = self.panes[j].copy();
            let has_tab = tab_index(&pane.tabs, tab_id).is_some();
            proof {
                tab_ids(pane@.tabs).index_of_first_ensures(tab_id);
            }
            if has_tab {
                pane.active_tab_id = tab_id;
                apply_active_tab_to_pane(&mut pane);
                self.panes.set(j, pane);
                proof {
                    assert(panes_view(self.panes@) =~= panes.update(j as int, pane@));
                }
            }
        }
    }

    /// Moves tab `tab_id` of pane `source_pane_id` into pane `destination`
    /// as its active, shown tab: see [`moved_panes`]. Returns whether the
    /// tab could leave its pane; when not, nothing changes.
    pub fn move_tab_into_pane(&mut self, source_pane_id: BrowserPaneId, tab_id: usize, destination: BrowserPaneId) -> (moved: bool)
        requires
            old(self).next_tab_id < usize::MAX,
            destination != source_pane_id,
        ensures
            moved == detach_tab(panes_view(old(self).panes@), old(self).next_tab_id, source_pane_id, tab_id) is Some,
            !moved ==> *final(self) == *old(self),
            moved ==> panes_view(final(self).panes@) == moved_panes(
                panes_view(old(self).panes@),
                old(self).next_tab_id,
                source_pane_id,
                tab_id,
                destination,
            ),
            final(self).next_tab_id == detach_next(panes_view(old(self).panes@), old(self).next_tab_id, source_pane_id, tab_id),
            *final(self) == (FileBrowser { panes: final(self).panes, next_tab_id: final(self).next_tab_id, ..*old(self) }),
    {
        let tab = match self.detach_or_copy_tab(source_pane_id, tab_id) {
            Some(tab) => tab,
            None => return false,
        };
        let ghost rest = panes_view(self.panes@);
        let found = pane_index(&self.panes, destination);
        proof {
            pane_ids(rest).index_of_first_ensures(destination);
        }
        if let Some(m) = found {
            let mut pane = self.panes[m].copy();
            let ghost t = tab@;
            let ghost d0 = pane@;
            pane.tabs.push(tab.copy());
            pane.active_tab_id = tab.id;
            proof {
                assert(tabs_view(pane.tabs@) =~= d0.tabs.push(t));
            }
            apply_tab_to_pane(&mut pane, &tab);
            self.panes.set(m, pane);
            proof {
                assert(panes_view(self.panes@) =~= rest.update(m as int, pane@));
            }
        }
        true
    }

    /// Shows the pane with id `pane_id` (the first), when there is one.
    pub fn show_pane(&mut self, pane_id: BrowserPaneId)
        ensures
            shows_pane_with_id(*final(self), *old(self), panes_view(old(self).panes@), pane_id),
            panes_view(final(self).panes@) == panes_view(old(self).panes@),
            changed_only_view_state_and_panes(*final(self), *old(self)),
            final(self).panes == old(self).panes,
            final(self).pane_layout == old(self).pane_layout,
            final(self).next_tab_id == old(self).next_tab_id,
    {
        let shown = pane_index(&self.panes, pane_id);
        proof {
            pane_ids(panes_view(self.panes@)).index_of_first_ensures(pane_id);
        }
        if let Some(m) = shown {
            let pane = self.panes[m].copy();
            self.restore_pane_snapshot(pane);
        }
    }
}

/// The sequence with its element at `from` taken out and put back at `to`.
pub open spec fn moved_within<A>(s: Seq<A>, from: int, to: int) -> Seq<A> {
    s.remove(from).insert(to, s[from])
}

/// What releasing a split drag of tab `tab_id` from pane `source` onto
/// `region` does, from the browser `before` (whose active tab and pane are
/// first brought up to date) to `after`.
pub open spec fn split_drag_done(after: FileBrowser, before: FileBrowser, source: BrowserPaneId, tab_id: usize, region: SplitRegion) -> bool {
    let synced = synced_panes(before, synced_tabs(before));
    match before.pane_layout {
        BrowserPaneLayout::Single { .. } => match detach_tab(synced, before.next_tab_id, source, tab_id) {
            None => panes_view(after.panes@) == synced && after.pane_layout == before.pane_layout,
            Some(t) => {
                let d = BrowserPaneId(fresh_pane_number(synced) as u64);
                &&& panes_view(after.panes@) == detach_panes(synced, source, tab_id).push(pane_of_tab(d, t))
                &&& after.pane_layout == split_layout(region, d, source)
                &&& shows_pane(after, pane_of_tab(d, t))
            },
        },
        BrowserPaneLayout::Split { first, second, .. } => {
            let d = if dragged_first(region) {
                first
            } else {
                second
            };
            let other = if d == first {
                second
            } else {
                first
            };
            if d != source && detach_tab(synced, before.next_tab_id, source, tab_id) is None {
                panes_view(after.panes@) == synced && after.pane_layout == before.pane_layout
            } else {
                &&& panes_view(after.panes@) == moved_panes(synced, before.next_tab_id, source, tab_id, d)
                &&& after.pane_layout == split_layout(region, d, other)
            }
        },
    }
}

/// The tab a dragged tab shows while it moves, and whether it is the trash.
#[derive(Debug, Clone, PartialEq, Eq)]
pub struct TabDragPreview {
    pub directory: crate::fs_path::FsPath,
    pub is_trash_view: bool,
}

/// The tab being dragged, looked up among the active pane's tabs when it
/// comes from the active pane and among its own pane's tabs otherwise.
pub open spec fn dragged_tab(browser: FileBrowser) -> Option<TabModel> {
    match browser.tab_drag {
        Some(drag) => if !drag.dragging {
            None
        } else {
            let tabs = if drag.source_pane_id == browser.active_pane() {
                Some(tabs_view(browser.tabs@))
            } else {
                match pane_ids(panes_view(browser.panes@)).index_of_first(drag.source_pane_id) {
                    Some(j) => Some(panes_view(browser.panes@)[j].tabs),
                    None => None,
                }
            };
            match tabs {
                Some(tabs) => match tab_ids(tabs).index_of_first(drag.tab_id) {
                    Some(i) => Some(tabs[i]),
                    None => None,
                },
                None => None,
            }
        },
        None => None,
    }
}

/// The panes after `tab` is put into pane `pane_id` as its active, shown
/// tab, or into a new pane of that id when there is none.
pub open spec fn put_tab(panes: Seq<PaneModel>, pane_id: BrowserPaneId, tab: TabModel) -> Seq<PaneModel> {
    match pane_ids(panes).index_of_first(pane_id) {
        Some(m) => panes.update(
            m,
            pane_synced(pane_showing(PaneModel { tabs: panes[m].tabs.push(tab), active_tab_id: tab.id, ..panes[m] }, tab)),
        ),
        None => panes.push(pane_of_tab(pane_id, tab)),
    }
}

/// Bringing the active pane up to date keeps every pane's id.
pub proof fn lemma_synced_panes_ids(browser: FileBrowser, tabs: Seq<TabModel>)
    ensures
        pane_ids(synced_panes(browser, tabs)) == pane_ids(panes_view(browser.panes@)),
{
    let panes = panes_view(browser.panes@);
    match pane_ids(panes).index_of_first(browser.active_pane()) {
        Some(j) => {
            pane_ids(panes).index_of_first_ensures(browser.active_pane());
            assert(pane_ids(panes.update(j, pane_with_browser_state(browser, tabs, panes[j]))) =~= pane_ids(panes));
        },
        None => {},
    }
}

/// `after` is `before` once [`FileBrowser::finish_tab_drag`] released the
/// tab press: the press goes, and a split drag that is over a region is
/// carried out.
pub open spec fn tab_drag_finished(before: FileBrowser, after: FileBrowser) -> bool {
    &&& after.tab_drag is None
    &&& changed_only_view_state_and_panes(after, FileBrowser { tab_drag: None, ..before })
    &&& match before.tab_drag {
        Some(drag) => if drag.mode == TabDragMode::Split && drag.dragging && drag.split_target is Some {
            split_drag_done(
                after,
                FileBrowser { tab_drag: None, ..before },
                drag.source_pane_id,
                drag.tab_id,
                drag.split_target.unwrap(),
            )
        } else {
            after == (FileBrowser { tab_drag: None, ..before })
        },
        None => after == before,
    }
}

/// Selecting tab `tab_id` of `before` switches to it: it is listed, open,
/// and not the active tab.
pub open spec fn tab_switches(before: FileBrowser, tab_id: usize) -> bool {
    !before.closing_tab(tab_id) && tab_id != before.active_tab_id
        && tab_ids(tabs_view(before.tabs@)).index_of_first(tab_id) is Some
}

/// `after` is `before` once [`FileBrowser::select_tab`] selected tab
/// `tab_id`: a closing or unlisted tab is left alone; otherwise the active
/// tab's state is stored first and, for another tab, that tab is shown.
pub open spec fn tab_selected(before: FileBrowser, after: FileBrowser, tab_id: usize) -> bool {
    let ids = tab_ids(tabs_view(before.tabs@));
    &&& changed_only_view_state_and_panes(after, before)
    &&& if before.closing_tab(tab_id) {
        after == before
    } else if tab_id == before.active_tab_id {
        &&& tabs_view(after.tabs@) == synced_tabs(before)
        &&& panes_view(after.panes@) == synced_panes(before, synced_tabs(before))
        &&& after == (FileBrowser { tabs: after.tabs, panes: after.panes, ..before })
    } else {
        match ids.index_of_first(tab_id) {
            None => after == before,
            Some(i) => {
                &&& tabs_view(after.tabs@) == synced_tabs(before)
                &&& panes_view(after.panes@) == synced_panes(before, synced_tabs(before))
                &&& shows_tab(after, tabs_view(before.tabs@)[i])
            },
        }
    }
}

/// `after` and `switched_to` follow from `closing`, the browser `before`
/// once tab `tab_id` began to close, as [`FileBrowser::close_tab`] goes on:
/// when the active tab closes and an open tab lies next to it, that tab is
/// selected ([`FileBrowser::select_tab`]) and returned when the selection
/// switched to it; otherwise `closing` stands.
pub open spec fn tab_closed_from(
    before: FileBrowser,
    closing: FileBrowser,
    after: FileBrowser,
    tab_id: usize,
    switched_to: Option<usize>,
) -> bool {
    let index = tab_ids(tabs_view(before.tabs@)).index_of_first(tab_id).unwrap();
    let adjacent = if tab_id == before.active_tab_id && index < closing.tabs@.len() {
        crate::tabs::adjacent_tab(closing, index, tab_id)
    } else {
        None
    };
    match adjacent {
        None => switched_to is None && after == closing,
        Some(t) => {
            &&& switched_to == if tab_switches(closing, t) { Some(t) } else { None }
            &&& tab_selected(closing, after, t)
        },
    }
}

/// `after` is `before` once a drag of tab `tab_id`, if one is under way,
/// ended as [`FileBrowser::finish_tab_drag`] ends it, and the tab started its
/// closing animation.
pub open spec fn tab_close_started(before: FileBrowser, ended: FileBrowser, after: FileBrowser, tab_id: usize) -> bool {
    &&& if before.tab_drag matches Some(d) && d.tab_id == tab_id {
        tab_drag_finished(before, ended)
    } else {
        ended == before
    }
    &&& after == (FileBrowser { tab_animations: after.tab_animations, ..ended })
    &&& after.tab_animations@ == crate::tabs::animations_started(ended.tab_animations@, tab_id, TabAnimationKind::Close)
}

impl FileBrowser {
    /// Releases a split drag: the active tab and pane are brought up to
    /// date, then a single pane is split ([`FileBrowser::split_single_pane_with_tab`])
    /// or the tab moves to a side of the split ([`FileBrowser::move_tab_to_split_side`]).
    pub fn finish_tab_split_drag(&mut self, source_pane_id: BrowserPaneId, tab_id: usize, region: SplitRegion)
        requires
            old(self).next_tab_id < usize::MAX,
            pane_numbers_bounded(old(self).panes@),
        ensures
            split_drag_done(*final(self), *old(self), source_pane_id, tab_id, region),
            changed_only_view_state_and_panes(*final(self), *old(self)),
    {
        let ghost before = self.panes@;
        let ghost b0 = *self;
        self.sync_active_tab_state();
        proof {
            lemma_synced_panes_ids(b0, synced_tabs(b0));
            assert(pane_ids(panes_view(self.panes@)) == pane_ids(panes_view(before)));
            assert forall|i: int| 0 <= i < self.panes@.len() implies (#[trigger] self.panes@[i]).id.0 < u64::MAX by {
                assert(pane_ids(panes_view(self.panes@))[i] == self.panes@[i].id);
                assert(pane_ids(panes_view(before))[i] == before[i].id);
            }
        }
        match self.pane_layout {
            BrowserPaneLayout::Single { .. } => self.split_single_pane_with_tab(source_pane_id, tab_id, region),
            BrowserPaneLayout::Split { first, second, .. } => {
                self.move_tab_to_split_side(source_pane_id, tab_id, region, first, second)
            },
        }
    }

    /// Releases a tab press: the press goes, and a split drag that is over
    /// a region is carried out ([`FileBrowser::finish_tab_split_drag`]).
    pub fn finish_tab_drag(&mut self)
        requires
            old(self).next_tab_id < usize::MAX,
            pane_numbers_bounded(old(self).panes@),
        ensures
            tab_drag_finished(*old(self), *final(self)),
    {
        let drag = match self.tab_drag.take() {
            Some(drag) => drag,
            None => return,
        };
        if drag.mode != TabDragMode::Split || !drag.dragging {
            return;
        }
        let region = match drag.split_target {
            Some(region) => region,
            None => return,
        };
        self.finish_tab_split_drag(drag.source_pane_id, drag.tab_id, region);
    }
}

/// A fresh list-view tab on `directory` with nothing selected and no history.
pub open spec fn fresh_tab(id: usize, directory: crate::fs_path::PathModel) -> TabModel {
    TabModel {
        id,
        directory,
        is_trash_view: false,
        view_mode: crate::model::BrowserViewMode::List,
        deepest_open_column_directory: None,
        entries: Seq::empty(),
        selected: None,
        selected_paths: Seq::empty(),
        back_stack: Seq::empty(),
        forward_stack: Seq::empty(),
    }
}

/// A new tab showing the trash.
pub open spec fn fresh_trash_tab(id: usize) -> TabModel {
    TabModel { is_trash_view: true, ..fresh_tab(id, crate::drop_target::trash_location()) }
}

/// The split a middle click on a folder opens into: Control splits one
/// above the other, Shift side by side, nothing else splits.
pub open spec fn middle_click_axis(modifiers: KeyboardModifiers) -> Option<SplitAxis> {
    if modifiers.control {
        Some(SplitAxis::Vertical)
    } else if modifiers.shift {
        Some(SplitAxis::Horizontal)
    } else {
        None
    }
}

impl FileBrowser {
    /// The tab being dragged: see [`dragged_tab`].
    pub fn tab_drag_preview(&self) -> (r: Option<TabDragPreview>)
        ensures
            match r {
                Some(p) => dragged_tab(*self) matches Some(t) && p.directory@ == t.directory
                    && p.is_trash_view == t.is_trash_view,
                None => dragged_tab(*self) is None,
            },
    {
        let drag = match &self.tab_drag {
            Some(drag) => drag,
            None => return None,
        };
        if !drag.dragging {
            return None;
        }
        let tabs = if drag.source_pane_id == self.active_pane_id() {
            &self.tabs
        } else {
            let found = pane_index(&self.panes, drag.source_pane_id);
            proof {
                pane_ids(panes_view(self.panes@)).index_of_first_ensures(drag.source_pane_id);
            }
            match found {
                Some(j) => &self.panes[j].tabs,
                None => return None,
            }
        };
        let found = tab_index(tabs, drag.tab_id);
        proof {
            tab_ids(tabs_view(tabs@)).index_of_first_ensures(drag.tab_id);
        }
        match found {
            Some(i) => Some(TabDragPreview { directory: tabs[i].directory.copy(), is_trash_view: tabs[i].is_trash_view }),
            None => None,
        }
    }

    /// Presses tab `tab_id` of the active pane: unless it is closing or not
    /// listed, a press starts that becomes a split drag when Control and
    /// Shift are held and a reordering drag otherwise.
    pub fn start_tab_drag(&mut self, pane_id: BrowserPaneId, tab_id: usize)
        ensures
            ({
                let starts = pane_id == old(self).active_pane() && !old(self).closing_tab(tab_id)
                    && tab_ids(tabs_view(old(self).tabs@)).contains(tab_id);
                &&& !starts ==> *final(self) == *old(self)
                &&& starts ==> *final(self) == (FileBrowser {
                    tab_drag: Some(TabDragState {
                        source_pane_id: pane_id,
                        tab_id,
                        dragging: false,
                        mode: if old(self).keyboard_modifiers.control && old(self).keyboard_modifiers.shift {
                            TabDragMode::Split
                        } else {
                            TabDragMode::Reorder
                        },
                        split_target: None,
                    }),
                    ..*old(self)
                })
            }),
    {
        if pane_id != self.active_pane_id() || self.tab_is_closing(tab_id) {
            return;
        }
        let listed = tab_index(&self.tabs, tab_id).is_some();
        proof {
            tab_ids(tabs_view(self.tabs@)).index_of_first_ensures(tab_id);
        }
        if !listed {
            return;
        }
        let mode = if self.keyboard_modifiers.control && self.keyboard_modifiers.shift {
            TabDragMode::Split
        } else {
            TabDragMode::Reorder
        };
        self.tab_drag = Some(TabDragState { source_pane_id: pane_id, tab_id, dragging: false, mode, split_target: None });
    }

    /// A reordering tab drag enters tab `entered_tab_id` of pane
    /// `entered_pane_id`. When it is a reordering drag under way in that
    /// pane, and neither tab is the other or closing, the dragged tab moves
    /// to the entered tab's place, the tabs passed over start their shift
    /// animation and the active pane is brought up to date. A dragged tab
    /// that is no longer listed ends the drag.
    pub fn reorder_dragged_tab(&mut self, entered_pane_id: BrowserPaneId, entered_tab_id: usize)
        ensures
            ({
                let ids = tab_ids(tabs_view(old(self).tabs@));
                match old(self).tab_drag {
                    Some(drag) => if drag.mode != TabDragMode::Reorder || drag.source_pane_id != entered_pane_id
                        || !drag.dragging || drag.tab_id == entered_tab_id || old(self).closing_tab(drag.tab_id)
                        || old(self).closing_tab(entered_tab_id) {
                        *final(self) == *old(self)
                    } else {
                        match (ids.index_of_first(drag.tab_id), ids.index_of_first(entered_tab_id)) {
                            (None, _) => *final(self) == (FileBrowser { tab_drag: None, ..*old(self) }),
                            (Some(_), None) => *final(self) == *old(self),
                            (Some(d), Some(e)) => {
                                let tabs = moved_within(tabs_view(old(self).tabs@), d, e);
                                &&& tabs_view(final(self).tabs@) == tabs
                                &&& final(self).tab_animations@ == animations_started_all(
                                    old(self).tab_animations@,
                                    if d < e {
                                        ids.subrange(d + 1, e + 1)
                                    } else {
                                        ids.subrange(e, d)
                                    },
                                    TabAnimationKind::Shift,
                                )
                                &&& panes_view(final(self).panes@) == synced_panes(*old(self), tabs)
                                &&& *final(self) == (FileBrowser {
                                    tabs: final(self).tabs,
                                    tab_animations: final(self).tab_animations,
                                    panes: final(self).panes,
                                    ..*old(self)
                                })
                            },
                        }
                    },
                    None => *final(self) == *old(self),
                }
            }),
    {
        let drag = match &self.tab_drag {
            Some(drag) => *drag,
            None => return,
        };
        if drag.mode != TabDragMode::Reorder || drag.source_pane_id != entered_pane_id || !drag.dragging {
            return;
        }
        let dragged_tab_id = drag.tab_id;
        if dragged_tab_id == entered_tab_id || self.tab_is_closing(dragged_tab_id) || self.tab_is_closing(entered_tab_id) {
            return;
        }
        let ghost ids = tab_ids(tabs_view(self.tabs@));
        proof {
            ids.index_of_first_ensures(dragged_tab_id);
            ids.index_of_first_ensures(entered_tab_id);
        }
        let dragged_index = match tab_index(&self.tabs, dragged_tab_id) {
            Some(i) => i,
            None => {
                self.tab_drag = None;
                return;
            },
        };
        let entered_index = match tab_index(&self.tabs, entered_tab_id) {
            Some(i) => i,
            None => return,
        };
        let shifted = self.shifted_tab_ids_for_reorder(dragged_index, entered_index);
        let ghost before = tabs_view(self.tabs@);
        let tab = self.tabs.remove(dragged_index);
        self.tabs.insert(entered_index, tab);
        proof {
            assert(tabs_view(self.tabs@) =~= moved_within(before, dragged_index as int, entered_index as int));
        }
        self.start_tab_reorder_animations(shifted);
        self.sync_active_pane_state();
    }

    /// The split a middle click on a folder opens into: see [`middle_click_axis`].
    pub fn folder_middle_click_split_axis(&self) -> (r: Option<SplitAxis>)
        ensures
            r == middle_click_axis(self.keyboard_modifiers),
    {
        if self.keyboard_modifiers.control {
            Some(SplitAxis::Vertical)
        } else if self.keyboard_modifiers.shift {
            Some(SplitAxis::Horizontal)
        } else {
            None
        }
    }

    /// The pane a middle-click split opens into: a new pane when the window
    /// is not split, otherwise the pane other than `source_id`.
    pub fn middle_click_split_destination_pane_id(&self, source_id: BrowserPaneId) -> (r: BrowserPaneId)
        requires
            pane_numbers_bounded(self.panes@),
        ensures
            r == match self.pane_layout {
                BrowserPaneLayout::Single { .. } => BrowserPaneId(fresh_pane_number(panes_view(self.panes@)) as u64),
                BrowserPaneLayout::Split { first, second, .. } => if source_id == first {
                    second
                } else {
                    first
                },
            },
    {
        match self.pane_layout {
            BrowserPaneLayout::Single { .. } => self.new_pane_id(),
            BrowserPaneLayout::Split { first, second, .. } => if source_id == first {
                second
            } else {
                first
            },
        }
    }

    /// A new list-view tab on `directory` under the next free tab id, which is used up.
    pub fn next_directory_tab(&mut self, directory: crate::fs_path::FsPath) -> (r: BrowserTab)
        requires
            old(self).next_tab_id < usize::MAX,
        ensures
            r@ == fresh_tab(old(self).next_tab_id, directory@),
            *final(self) == (FileBrowser { next_tab_id: (old(self).next_tab_id + 1) as usize, ..*old(self) }),
    {
        let tab_id = self.next_tab_id;
        self.next_tab_id = self.next_tab_id + 1;
        let tab = BrowserTab::directory(tab_id, directory);
        proof {
            assert(tab@.entries =~= Seq::empty());
            assert(tab@.selected_paths =~= Seq::empty());
            assert(tab@.back_stack =~= Seq::empty());
            assert(tab@.forward_stack =~= Seq::empty());
        }
        tab
    }

    /// Puts `tab` into pane `pane_id`: see [`put_tab`].
    pub fn put_directory_tab_in_pane(&mut self, pane_id: BrowserPaneId, tab: BrowserTab)
        ensures
            panes_view(final(self).panes@) == put_tab(panes_view(old(self).panes@), pane_id, tab@),
            *final(self) == (FileBrowser { panes: final(self).panes, ..*old(self) }),
    {
        let ghost panes = panes_view(self.panes@);
        let found = pane_index(&self.panes, pane_id);
        proof {
            pane_ids(panes).index_of_first_ensures(pane_id);
        }
        match found {
            Some(m) => {
                let mut pane = self.panes[m].copy();
                let ghost p0 = pane@;
                let ghost t = tab@;
                pane.tabs.push(tab.copy());
                pane.active_tab_id = tab.id;
                proof {
                    assert(tabs_view(pane.tabs@) =~= p0.tabs.push(t));
                }
                apply_tab_to_pane(&mut pane, &tab);
                self.panes.set(m, pane);
                proof {
                    assert(panes_view(self.panes@) =~= panes.update(m as int, pane@));
                }
            },
            None => {
                let pane = pane_from_tab(pane_id, tab);
                self.panes.push(pane);
                proof {
                    assert(panes_view(self.panes@) =~= panes.push(pane@));
                }
            },
        }
    }
}

/// The browser shows `tab`'s view state.
pub open spec fn shows_tab(browser: FileBrowser, tab: TabModel) -> bool {
    &&& browser.active_tab_id == tab.id
    &&& browser.current_dir@ == tab.directory
    &&& browser.is_trash_view == tab.is_trash_view
    &&& browser.view_mode == tab.view_mode
    &&& opt_path_view(browser.deepest_open_column_directory) == tab.deepest_open_column_directory
    &&& entries_view(browser.entries@) == tab.entries
    &&& opt_path_view(browser.selected) == tab.selected
    &&& paths_view(browser.selected_paths@) == tab.selected_paths
    &&& paths_view(browser.back_stack@) == tab.back_stack
    &&& paths_view(browser.forward_stack@) == tab.forward_stack
}

impl FileBrowser {
    /// Switches to tab `tab_id` of the active pane. A closing tab is not
    /// selected; the active tab only has its state stored. Otherwise the
    /// active tab and pane are brought up to date and the tab's view state
    /// is shown. Returns whether another tab was selected (and so its
    /// directory is to be reloaded).
    pub fn select_tab(&mut self, tab_id: usize) -> (switched: bool)
        ensures
            switched == tab_switches(*old(self), tab_id),
            tab_selected(*old(self), *final(self), tab_id),
    {
        if self.tab_is_closing(tab_id) {
            return false;
        }
        if tab_id == self.active_tab_id {
            self.sync_active_tab_state();
            return false;
        }
        let found = tab_index(&self.tabs, tab_id);
        proof {
            tab_ids(tabs_view(self.tabs@)).index_of_first_ensures(tab_id);
        }
        let tab = match found {
            Some(i) => self.tabs[i].copy(),
            None => return false,
        };
        self.sync_active_tab_state();
        self.active_tab_id = tab.id;
        self.is_trash_view = tab.is_trash_view;
        self.view_mode = tab.view_mode;
        self.deepest_open_column_directory = tab.deepest_open_column_directory;
        self.entries = tab.entries;
        self.selected = tab.selected;
        self.selected_paths = tab.selected_paths;
        self.back_stack = tab.back_stack;
        self.forward_stack = tab.forward_stack;
        self.current_dir = tab.directory;
        true
    }

    /// Opens `directory` in a new tab of the active pane: the current tab's
    /// state is stored, menus close, the tab takes the next free id, starts
    /// its intro animation, becomes active with no history, and the tab bar
    /// shows. The directory itself is then opened by navigation.
    pub fn open_directory_in_new_tab(&mut self, directory: crate::fs_path::FsPath)
        requires
            old(self).next_tab_id < usize::MAX,
        ensures
            tabs_view(final(self).tabs@) == synced_tabs(*old(self)).push(fresh_tab(old(self).next_tab_id, directory@)),
            panes_view(final(self).panes@) == synced_panes(*old(self), synced_tabs(*old(self))),
            final(self).next_tab_id == old(self).next_tab_id + 1,
            final(self).active_tab_id == old(self).next_tab_id,
            ids_fresh_below(tab_ids(tabs_view(old(self).tabs@)), old(self).next_tab_id) ==> ids_fresh_below(
                tab_ids(tabs_view(final(self).tabs@)),
                final(self).next_tab_id,
            ),
            final(self).tab_animations@ == crate::tabs::animations_started(
                old(self).tab_animations@,
                old(self).next_tab_id,
                TabAnimationKind::Intro,
            ),
            final(self).tab_bar_reveal == (if old(self).tabs@.len() == 0 || old(self).tab_bar_reveal
                == crate::tabs::TabBarReveal::Visible || old(self).tab_bar_reveal == crate::tabs::TabBarReveal::Opening {
                if old(self).tabs@.len() == 0 && (old(self).tab_bar_reveal == crate::tabs::TabBarReveal::Visible
                    || old(self).tab_bar_reveal == crate::tabs::TabBarReveal::Opening) {
                    crate::tabs::TabBarReveal::Closing
                } else {
                    old(self).tab_bar_reveal
                }
            } else {
                crate::tabs::TabBarReveal::Opening
            }),
            final(self).context_menu is None,
            final(self).back_stack@.len() == 0,
            final(self).forward_stack@.len() == 0,
            *final(self) == (FileBrowser {
                tabs: final(self).tabs,
                panes: final(self).panes,
                next_tab_id: final(self).next_tab_id,
                active_tab_id: final(self).active_tab_id,
                tab_animations: final(self).tab_animations,
                tab_bar_reveal: final(self).tab_bar_reveal,
                context_menu: None,
                back_stack: final(self).back_stack,
                forward_stack: final(self).forward_stack,
                ..*old(self)
            }),
    {
        self.sync_active_tab_state();
        self.context_menu = None;
        let tab = self.next_directory_tab(directory);
        let tab_id = tab.id;
        let ghost before = tabs_view(self.tabs@);
        self.tabs.push(tab);
        proof {
            assert(tabs_view(self.tabs@) =~= before.push(fresh_tab(tab_id, directory@)));
        }
        self.start_tab_intro_animation(tab_id);
        self.sync_tab_bar_visibility();
        self.active_tab_id = tab_id;
        self.back_stack = Vec::new();
        self.forward_stack = Vec::new();
        proof {
            lemma_synced_tabs_keep_ids(*old(self));
            let before_ids = tab_ids(tabs_view(old(self).tabs@));
            let after_ids = tab_ids(tabs_view(self.tabs@));
            assert(after_ids =~= tab_ids(synced_tabs(*old(self))).push(tab_id));
            if ids_fresh_below(before_ids, old(self).next_tab_id) {
                assert forall|i: int| 0 <= i < after_ids.len() implies #[trigger] after_ids[i] < self.next_tab_id by {
                    if i < before_ids.len() {
                        assert(after_ids[i] == before_ids[i]);
                    }
                }
                assert forall|i: int, j: int| 0 <= i < j < after_ids.len() implies #[trigger] after_ids[i] != #[trigger] after_ids[j] by {
                    assert(after_ids[i] == before_ids[i]);
                    if j < before_ids.len() {
                        assert(after_ids[j] == before_ids[j]);
                    }
                }
            }
        }
    }

    /// Makes pane `pane_id` active. When it is another listed pane, the
    /// current tab and pane are stored first, the layout makes that pane
    /// active, and its stored view state is shown. Returns whether it switched.
    pub fn activate_pane(&mut self, pane_id: BrowserPaneId) -> (switched: bool)
        ensures
            switched == (pane_id != old(self).active_pane() && pane_ids(panes_view(old(self).panes@)).contains(pane_id)),
            !switched ==> *final(self) == *old(self),
            switched ==> ({
                let saved = synced_panes(*old(self), synced_tabs(*old(self)));
                &&& panes_view(final(self).panes@) == saved
                &&& final(self).pane_layout == crate::session::with_active(old(self).pane_layout, pane_id)
                &&& shows_pane(*final(self), saved[pane_ids(saved).index_of_first(pane_id).unwrap()])
                &&& changed_only_view_state_and_panes(*final(self), *old(self))
                &&& final(self).next_tab_id == old(self).next_tab_id
            }),
    {
        if pane_id == self.active_pane_id() {
            return false;
        }
        let found = pane_index(&self.panes, pane_id);
        proof {
            pane_ids(panes_view(self.panes@)).index_of_first_ensures(pane_id);
        }
        if found.is_none() {
            return false;
        }
        let ghost b0 = *self;
        self.sync_active_tab_state();
        proof {
            lemma_synced_panes_ids(b0, synced_tabs(b0));
            pane_ids(panes_view(self.panes@)).index_of_first_ensures(pane_id);
        }
        self.pane_layout = match self.pane_layout {
            BrowserPaneLayout::Single { .. } => BrowserPaneLayout::Single { active: pane_id },
            BrowserPaneLayout::Split { axis, first, second, .. } => BrowserPaneLayout::Split {
                axis,
                first,
                second,
                active: pane_id,
            },
        };
        self.show_pane(pane_id);
        true
    }

    /// Opens the trash in a new tab of the active pane: the current tab's
    /// state is stored, menus and the preview close, the tab takes the next
    /// free id, starts its intro animation, becomes active with no history,
    /// and the tab bar shows. The trash itself is then listed by navigation.
    pub fn open_trash_in_new_tab(&mut self)
        requires
            old(self).next_tab_id < usize::MAX,
        ensures
            tabs_view(final(self).tabs@) == synced_tabs(*old(self)).push(fresh_trash_tab(old(self).next_tab_id)),
            final(self).next_tab_id == old(self).next_tab_id + 1,
            final(self).active_tab_id == old(self).next_tab_id,
            ids_fresh_below(tab_ids(tabs_view(old(self).tabs@)), old(self).next_tab_id) ==> ids_fresh_below(
                tab_ids(tabs_view(final(self).tabs@)),
                final(self).next_tab_id,
            ),
            final(self).tab_animations@ == crate::tabs::animations_started(
                old(self).tab_animations@,
                old(self).next_tab_id,
                TabAnimationKind::Intro,
            ),
            final(self).tab_bar_reveal == (FileBrowser {
                tabs: final(self).tabs,
                tab_animations: final(self).tab_animations,
                ..*old(self)
            }).synced_reveal(),
            *final(self) == (FileBrowser {
                tabs: final(self).tabs,
                panes: final(self).panes,
                next_tab_id: final(self).next_tab_id,
                active_tab_id: final(self).active_tab_id,
                tab_animations: final(self).tab_animations,
                tab_bar_reveal: final(self).tab_bar_reveal,
                context_menu: None,
                preview: None,
                back_stack: final(self).back_stack,
                forward_stack: final(self).forward_stack,
                ..*old(self)
            }),
            final(self).back_stack@.len() == 0,
            final(self).forward_stack@.len() == 0,
    {
        self.sync_active_tab_state();
        self.context_menu = None;
        self.preview = None;
        let tab_id = self.next_tab_id;
        self.next_tab_id = self.next_tab_id + 1;
        let tab = BrowserTab::trash(tab_id);
        proof {
            assert(tab@.entries =~= Seq::empty());
            assert(tab@.selected_paths =~= Seq::empty());
            assert(tab@.back_stack =~= Seq::empty());
            assert(tab@.forward_stack =~= Seq::empty());
        }
        let ghost before = tabs_view(self.tabs@);
        let ghost t = tab@;
        self.tabs.push(tab);
        proof {
            assert(tabs_view(self.tabs@) =~= before.push(t));
            assert(t == fresh_trash_tab(tab_id));
        }
        self.start_tab_intro_animation(tab_id);
        self.sync_tab_bar_visibility();
        self.active_tab_id = tab_id;
        self.back_stack = Vec::new();
        self.forward_stack = Vec::new();
        proof {
            lemma_synced_tabs_keep_ids(*old(self));
            let before_ids = tab_ids(tabs_view(old(self).tabs@));
            let after_ids = tab_ids(tabs_view(self.tabs@));
            assert(after_ids =~= tab_ids(synced_tabs(*old(self))).push(tab_id));
            if ids_fresh_below(before_ids, old(self).next_tab_id) {
                assert forall|i: int| 0 <= i < after_ids.len() implies #[trigger] after_ids[i] < self.next_tab_id by {
                    if i < before_ids.len() {
                        assert(after_ids[i] == before_ids[i]);
                    }
                }
                assert forall|i: int, j: int| 0 <= i < j < after_ids.len() implies #[trigger] after_ids[i] != #[trigger] after_ids[j] by {
                    assert(after_ids[i] == before_ids[i]);
                    if j < before_ids.len() {
                        assert(after_ids[j] == before_ids[j]);
                    }
                }
            }
        }
    }

    /// Opens `directory` beside the active pane, split along `axis`: the
    /// current state is stored, menus close, the directory becomes a new
    /// tab of the other pane (a new one when the window is not split),
    /// that pane goes second and becomes active and shown.
    pub fn open_directory_in_split(&mut self, directory: crate::fs_path::FsPath, axis: SplitAxis)
        requires
            old(self).next_tab_id < usize::MAX,
            pane_numbers_bounded(old(self).panes@),
        ensures
            ({
                let synced = synced_panes(*old(self), synced_tabs(*old(self)));
                let source = old(self).active_pane();
                let d = match old(self).pane_layout {
                    BrowserPaneLayout::Single { .. } => BrowserPaneId(fresh_pane_number(synced) as u64),
                    BrowserPaneLayout::Split { first, second, .. } => if source == first {
                        second
                    } else {
                        first
                    },
                };
                let panes = put_tab(synced, d, fresh_tab(old(self).next_tab_id, directory@));
                &&& panes_view(final(self).panes@) == panes
                &&& final(self).pane_layout == (BrowserPaneLayout::Split { axis, first: source, second: d, active: d })
                &&& final(self).next_tab_id == old(self).next_tab_id + 1
                &&& final(self).context_menu is None
                &&& match pane_ids(panes).index_of_first(d) {
                    Some(m) => shows_pane(*final(self), panes[m]),
                    None => true,
                }
            }),
    {
        let ghost b0 = *self;
        let ghost before = self.panes@;
        self.sync_active_tab_state();
        proof {
            lemma_synced_panes_ids(b0, synced_tabs(b0));
            assert(pane_ids(panes_view(self.panes@)) == pane_ids(panes_view(before)));
            assert forall|i: int| 0 <= i < self.panes@.len() implies (#[trigger] self.panes@[i]).id.0 < u64::MAX by {
                assert(pane_ids(panes_view(self.panes@))[i] == self.panes@[i].id);
                assert(pane_ids(panes_view(before))[i] == before[i].id);
            }
        }
        self.context_menu = None;
        let source_id = self.active_pane_id();
        let destination_id = self.middle_click_split_destination_pane_id(source_id);
        let tab = self.next_directory_tab(directory);
        self.put_directory_tab_in_pane(destination_id, tab);
        self.pane_layout = BrowserPaneLayout::Split { axis, first: source_id, second: destination_id, active: destination_id };
        let found = pane_index(&self.panes, destination_id);
        proof {
            pane_ids(panes_view(self.panes@)).index_of_first_ensures(destination_id);
        }
        if let Some(m) = found {
            let destination = self.panes[m].copy();
            self.restore_pane_snapshot(destination);
            self.sync_tab_bar_visibility();
        }
    }

    /// A middle click on a folder: with Control or Shift held it opens in a
    /// split ([`FileBrowser::open_directory_in_split`] along
    /// [`middle_click_axis`]), otherwise in a new tab
    /// ([`FileBrowser::open_directory_in_new_tab`]). Returns the split axis used, if any.
    pub fn open_directory_from_middle_click(&mut self, directory: crate::fs_path::FsPath) -> (r: Option<SplitAxis>)
        requires
            old(self).next_tab_id < usize::MAX,
            pane_numbers_bounded(old(self).panes@),
        ensures
            r == middle_click_axis(old(self).keyboard_modifiers),
            r is None ==> tabs_view(final(self).tabs@) == synced_tabs(*old(self)).push(
                fresh_tab(old(self).next_tab_id, directory@),
            ) && final(self).pane_layout == old(self).pane_layout,
            r matches Some(axis) ==> final(self).pane_layout matches BrowserPaneLayout::Split { axis: a, first, .. }
                && a == axis && first == old(self).active_pane(),
    {
        match self.folder_middle_click_split_axis() {
            None => {
                self.open_directory_in_new_tab(directory);
                None
            },
            Some(axis) => {
                self.open_directory_in_split(directory, axis);
                Some(axis)
            },
        }
    }
}

impl FileBrowser {
    /// A close of tab `tab_id` is refused: it is the last open tab, is
    /// closing already or is not listed.
    pub open spec fn tab_close_refused(&self, tab_id: usize) -> bool {
        crate::tabs::count_open(self.tabs@, self.tab_animations@) <= 1 || self.closing_tab(tab_id)
            || !tab_ids(tabs_view(self.tabs@)).contains(tab_id)
    }

    /// Ends a drag of tab `tab_id`, if one is under way, and starts the
    /// tab's closing animation.
    fn end_drag_and_start_close(&mut self, tab_id: usize) -> (ended: Ghost<FileBrowser>)
        requires
            old(self).next_tab_id < usize::MAX,
            pane_numbers_bounded(old(self).panes@),
        ensures
            tab_close_started(*old(self), ended@, *final(self), tab_id),
            final(self).closing_tab(tab_id),
    {
        let dragging_it = match &self.tab_drag {
            Some(drag) => drag.tab_id == tab_id,
            None => false,
        };
        if dragging_it {
            self.finish_tab_drag();
        }
        let ghost ended = *self;
        let ghost anims = self.tab_animations@;
        self.start_tab_close_animation(tab_id);
        proof {
            let ids = crate::tabs::animation_ids(anims);
            ids.index_of_first_ensures(tab_id);
            let after = self.tab_animations@;
            match ids.index_of_first(tab_id) {
                Some(i) => {
                    assert(after[i].tab_id == tab_id && after[i].closing);
                },
                None => {
                    assert(after[anims.len() as int].tab_id == tab_id && after[anims.len() as int].closing);
                },
            }
        }
        Ghost(ended)
    }

    /// Closes tab `tab_id` of the active pane: the last open tab, a closing
    /// tab or an unlisted one is left alone. A drag of the tab ends first,
    /// then its closing animation starts; when it was the active tab, the
    /// nearest open tab before it (else after it) is selected. Returns the
    /// tab switched to, if any.
    #[verifier::rlimit(30)]
    pub fn close_tab(&mut self, tab_id: usize) -> (switched_to: Option<usize>)
        requires
            old(self).next_tab_id < usize::MAX,
            pane_numbers_bounded(old(self).panes@),
        ensures
            old(self).tab_close_refused(tab_id) ==> switched_to is None && *final(self) == *old(self),
            !old(self).tab_close_refused(tab_id) ==> exists|ended: FileBrowser, closing: FileBrowser| {
                &&& #[trigger] tab_close_started(*old(self), ended, closing, tab_id)
                &&& closing.closing_tab(tab_id)
                &&& tab_closed_from(*old(self), closing, *final(self), tab_id, switched_to)
            },
            !old(self).tab_close_refused(tab_id) ==> final(self).closing_tab(tab_id),
            tab_id != old(self).active_tab_id ==> switched_to is None,
            switched_to matches Some(t) ==> final(self).active_tab_id == t && t != tab_id,
    {
        if self.open_tab_count() <= 1 || self.tab_is_closing(tab_id) {
            return None;
        }
        let found = tab_index(&self.tabs, tab_id);
        proof {
            tab_ids(tabs_view(self.tabs@)).index_of_first_ensures(tab_id);
        }
        let closing_index = match found {
            Some(i) => i,
            None => return None,
        };
        let was_active = tab_id == self.active_tab_id;
        let ghost before = *self;
        let ended = self.end_drag_and_start_close(tab_id);
        let ghost closing = *self;
        assert(tab_close_started(before, ended@, closing, tab_id));
        if !was_active || closing_index >= self.tabs.len() {
            return None;
        }
        let adjacent = match self.adjacent_open_tab_id(closing_index, tab_id) {
            Some(t) => t,
            None => return None,
        };
        proof {
            tab_ids(tabs_view(self.tabs@)).index_of_first_ensures(adjacent);
        }
        let ghost mid = *self;
        let switched = self.select_tab(adjacent);
        proof {
            assert(self.tab_animations == mid.tab_animations);
            assert(self.closing_tab(tab_id) == mid.closing_tab(tab_id));
        }
        if switched {
            Some(adjacent)
        } else {
            None
        }
    }
}

impl FileBrowser {
    /// A thumbnail refresh for `directory` in pane `pane_id` still applies:
    /// the pane (the live view for the active pane, the stored pane, the
    /// first with its id, otherwise) shows that directory and is not loading.
    pub fn thumbnail_refresh_matches_pane(&self, pane_id: BrowserPaneId, directory: &crate::fs_path::FsPath) -> (r: bool)
        ensures
            r == if pane_id == self.active_pane() {
                !self.is_loading && self.current_dir@ == directory@
            } else {
                match pane_ids(panes_view(self.panes@)).index_of_first(pane_id) {
                    Some(j) => !self.panes@[j].is_loading && self.panes@[j].current_dir@ == directory@,
                    None => false,
                }
            },
    {
        if pane_id == self.active_pane_id() {
            return !self.is_loading && self.current_dir.same_path(directory);
        }
        let found = pane_index(&self.panes, pane_id);
        proof {
            pane_ids(panes_view(self.panes@)).index_of_first_ensures(pane_id);
        }
        match found {
            Some(j) => !self.panes[j].is_loading && self.panes[j].current_dir.same_path(directory),
            None => false,
        }
    }
}
} // verus!
