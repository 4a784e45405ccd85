use vstd::prelude::*;

use crate::browser::{BrowserPane, BrowserPaneLayout, BrowserTab, FileBrowser, StartupLocationPolicy};
use crate::fs_path::{FsPath, PathModel, path_text_of};
use crate::model::{BrowserPaneId, copy_opt_path};
use crate::drag::copy_paths;
use crate::panes::{pane_ids, pane_index, path_input_for_tab, path_input_text, pane_synced, synced_panes, synced_tabs, tab_index};
use crate::tab_state::{PaneModel, TabModel, copy_tabs, panes_view, tab_ids, tabs_view};

verus! {

/// The saved state of one pane: its tabs and which one is active.
pub struct BrowserPaneSession {
    pub id: BrowserPaneId,
    pub tabs: Vec<BrowserTab>,
    pub active_tab_id: usize,
}

/// The saved state of the window: its panes and their layout.
pub struct BrowserSessionSnapshot {
    pub panes: Vec<BrowserPaneSession>,
    pub layout: BrowserPaneLayout,
}

/// The meaning of a [`BrowserPaneSession`].
pub struct PaneSessionModel {
    pub id: BrowserPaneId,
    pub tabs: Seq<TabModel>,
    pub active_tab_id: usize,
}

impl View for BrowserPaneSession {
    type V = PaneSessionModel;

    open spec fn view(&self) -> PaneSessionModel {
        PaneSessionModel { id: self.id, tabs: tabs_view(self.tabs@), active_tab_id: self.active_tab_id }
    }
}

/// The meanings of a list of saved panes.
pub open spec fn pane_sessions_view(panes: Seq<BrowserPaneSession>) -> Seq<PaneSessionModel> {
    panes.map_values(|p: BrowserPaneSession| p@)
}

/// The saved state of a live pane.
pub open spec fn session_of_pane(pane: PaneModel) -> PaneSessionModel {
    PaneSessionModel { id: pane.id, tabs: pane.tabs, active_tab_id: pane.active_tab_id }
}

/// The window layer may save the view state: the launch allows it and the
/// startup policy restores the previous session.
pub open spec fn session_saving(browser: FileBrowser) -> bool {
    browser.launch_allows_session_persistence && browser.startup_location_policy.keeps_view_state()
}

/// The least time between two session saves, in milliseconds.
pub const SESSION_SAVE_INTERVAL_MS: u64 = 500;

/// What the window layer is to do about saving the session.
pub enum SessionSaveAction {
    /// Saving is off, or nothing is pending.
    Skip,
    /// The store is not open yet; the save stays pending.
    WaitForStore,
    /// The last save was too recent; the save stays pending until the interval passes.
    Delay,
    /// Save this snapshot now and record the time.
    Save(BrowserSessionSnapshot),
}

/// The tabs of a saved pane that can be restored: trash tabs, and tabs
/// whose directory is usable (`usable` says so, tab by tab), in order.
pub open spec fn restorable_tabs(tabs: Seq<TabModel>, usable: Seq<bool>) -> Seq<TabModel>
    decreases tabs.len(),
{
    if tabs.len() == 0 {
        Seq::empty()
    } else {
        let rest = restorable_tabs(tabs.drop_last(), usable.take(tabs.len() - 1));
        if tabs.last().is_trash_view || usable[tabs.len() - 1] {
            rest.push(tabs.last())
        } else {
            rest
        }
    }
}

/// The tab a restored pane shows: its saved active tab when that was
/// restored, otherwise its first restored tab.
pub open spec fn restored_active_tab(tabs: Seq<TabModel>, active_tab_id: usize) -> TabModel {
    match tab_ids(tabs).index_of_first(active_tab_id) {
        Some(i) => tabs[i],
        None => tabs[0],
    }
}

/// The pane restored from a saved one whose restorable tabs are `tabs`:
/// it shows the restored active tab, has nothing listed yet and is loading.
pub open spec fn restored_pane(id: BrowserPaneId, tabs: Seq<TabModel>, active_tab_id: usize) -> PaneModel {
    let a = restored_active_tab(tabs, active_tab_id);
    pane_synced(
        PaneModel {
            id,
            current_dir: a.directory,
            is_trash_view: a.is_trash_view,
            view_mode: a.view_mode,
            deepest_open_column_directory: a.deepest_open_column_directory,
            entries: Seq::empty(),
            selected: a.selected,
            selected_paths: a.selected_paths,
            tabs,
            active_tab_id: a.id,
            path_input: path_input_text(a),
            back_stack: a.back_stack,
            forward_stack: a.forward_stack,
            is_loading: true,
        },
    )
}

/// Some pane of `panes` has id `id`.
pub open spec fn pane_listed(panes: Seq<PaneModel>, id: BrowserPaneId) -> bool {
    pane_ids(panes).contains(id)
}

/// A saved layout kept when every pane it names was restored, and otherwise
/// a single layout on the first restored pane.
pub open spec fn sanitized_layout(layout: BrowserPaneLayout, panes: Seq<PaneModel>) -> BrowserPaneLayout {
    match layout {
        BrowserPaneLayout::Single { active } => if pane_listed(panes, active) {
            layout
        } else {
            BrowserPaneLayout::Single { active: panes[0].id }
        },
        BrowserPaneLayout::Split { first, second, active, .. } => if pane_listed(panes, first) && pane_listed(
            panes,
            second,
        ) && pane_listed(panes, active) {
            layout
        } else {
            BrowserPaneLayout::Single { active: panes[0].id }
        },
    }
}

/// How the browser starts: one directory, with an error to show when the
/// wanted one could not be used, or a saved session.
pub enum StartupSessionPlan {
    Directory { directory: FsPath, error: Option<String> },
    Session(BrowserSessionSnapshot),
}

/// The plan opens `directory` alone, showing `error` if any.
pub open spec fn plan_opens(plan: StartupSessionPlan, directory: PathModel, error: Option<Seq<char>>) -> bool {
    match plan {
        StartupSessionPlan::Directory { directory: d, error: e } => d@ == directory && match e {
            Some(text) => error == Some(text@),
            None => error is None,
        },
        StartupSessionPlan::Session(_) => false,
    }
}

/// The error shown when the startup directory cannot be opened.
pub open spec fn startup_directory_error(candidate: PathModel) -> Seq<char> {
    "Could not open startup directory "@ + path_text_of(candidate) + "; opening the home directory."@
}

/// The error shown when no session was saved.
pub open spec fn no_session_error() -> Seq<char> {
    "No saved view state was found; opening the home directory."@
}

/// Whether `id` is the id of some pane of `panes`.
pub fn pane_exists(panes: &Vec<BrowserPane>, id: BrowserPaneId) -> (r: bool)
    ensures
        r == pane_listed(panes_view(panes@), id),
{
    let found = pane_index(panes, id);
    proof {
        pane_ids(panes_view(panes@)).index_of_first_ensures(id);
    }
    found.is_some()
}

/// The saved layout, checked against the restored panes: see [`sanitized_layout`].
pub fn sanitize_layout(layout: BrowserPaneLayout, panes: &Vec<BrowserPane>) -> (r: BrowserPaneLayout)
    requires
        panes@.len() > 0,
    ensures
        r == sanitized_layout(layout, panes_view(panes@)),
{
    match layout {
        BrowserPaneLayout::Single { active } => {
            if pane_exists(panes, active) {
                return layout;
            }
        },
        BrowserPaneLayout::Split { first, second, active, .. } => {
            if pane_exists(panes, first) && pane_exists(panes, second) && pane_exists(panes, active) {
                return layout;
            }
        },
    }
    BrowserPaneLayout::Single { active: panes[0].id }
}

/// Rebuilds a pane from its saved state: see [`restorable_tabs`] and
/// [`restored_pane`]. A pane with no restorable tab is dropped.
pub fn restored_pane_from_session(pane: BrowserPaneSession, usable: &Vec<bool>) -> (r: Option<BrowserPane>)
    requires
        usable@.len() == pane.tabs@.len(),
    ensures
        ({
            let tabs = restorable_tabs(tabs_view(pane.tabs@), usable@);
            match r {
                Some(p) => tabs.len() > 0 && p@ == restored_pane(pane.id, tabs, pane.active_tab_id),
                None => tabs.len() == 0,
            }
        }),
{
    let ghost all = tabs_view(pane.tabs@);
    let mut restored: Vec<BrowserTab> = Vec::new();
    let mut i: usize = 0;
    while i < pane.tabs.len()
        invariant
            i <= pane.tabs@.len(),
            usable@.len() == pane.tabs@.len(),
            all == tabs_view(pane.tabs@),
            tabs_view(restored@) == restorable_tabs(all.take(i as int), usable@.take(i as int)),
        decreases pane.tabs.len() - i,
    {
        proof {
            let t = all.take(i + 1);
            assert(t.drop_last() =~= all.take(i as int));
            assert(usable@.take(i + 1).take(i as int) =~= usable@.take(i as int));
            assert(t.last() == pane.tabs@[i as int]@);
        }
        if pane.tabs[i].is_trash_view || usable[i] {
            let ghost before = tabs_view(restored@);
            restored.push(pane.tabs[i].copy());
            proof {
                assert(tabs_view(restored@) =~= before.push(all[i as int]));
            }
        }
        i = i + 1;
    }
    proof {
        assert(all.take(i as int) =~= all);
        assert(usable@.take(i as int) =~= usable@);
    }
    if restored.len() == 0 {
        return None;
    }
    let found = tab_index(&restored, pane.active_tab_id);
    proof {
        tab_ids(tabs_view(restored@)).index_of_first_ensures(pane.active_tab_id);
    }
    let a = match found {
        Some(k) => restored[k].copy(),
        None => restored[0].copy(),
    };
    let path_input = path_input_for_tab(&a);
    let mut browser_pane = BrowserPane {
        id: pane.id,
        current_dir: a.directory.copy(),
        is_trash_view: a.is_trash_view,
        view_mode: a.view_mode,
        deepest_open_column_directory: copy_opt_path(&a.deepest_open_column_directory),
        entries: Vec::new(),
        selected: copy_opt_path(&a.selected),
        selected_paths: copy_paths(a.selected_paths.as_slice()),
        tabs: restored,
        active_tab_id: a.id,
        path_input,
        back_stack: copy_paths(a.back_stack.as_slice()),
        forward_stack: copy_paths(a.forward_stack.as_slice()),
        is_loading: true,
    };
    proof {
        assert(browser_pane@.entries =~= Seq::empty());
    }
    browser_pane.sync_active_tab_state();
    Some(browser_pane)
}

/// `after` and `r` are `before` once its session was handed over for
/// saving: the active tab and pane are brought up to date, the snapshot
/// holds each pane's tabs and active tab with the layout, and one more save
/// is in flight.
pub open spec fn snapshot_saved(before: FileBrowser, after: FileBrowser, r: SessionSaveAction) -> bool {
    let panes = synced_panes(before, synced_tabs(before));
    &&& r matches SessionSaveAction::Save(snapshot) && pane_sessions_view(snapshot.panes@) == panes.map_values(
        |p: PaneModel| session_of_pane(p),
    ) && snapshot.layout == before.pane_layout
    &&& tabs_view(after.tabs@) == synced_tabs(before)
    &&& panes_view(after.panes@) == panes
    &&& after.browser_session_saves_in_flight == before.browser_session_saves_in_flight + 1
    &&& after == (FileBrowser {
        tabs: after.tabs,
        panes: after.panes,
        browser_session_saves_in_flight: after.browser_session_saves_in_flight,
        ..before
    })
}

impl FileBrowser {
    /// The view state is to be saved: see [`session_saving`].
    pub fn should_save_browser_session(&self) -> (r: bool)
        ensures
            r == session_saving(*self),
    {
        self.launch_allows_session_persistence && self.startup_location_policy.saves_view_state()
    }

    /// The window's saved state: the active tab and pane are brought up to
    /// date, then each pane's tabs and active tab are saved with the layout.
    pub fn browser_session_snapshot(&mut self) -> (r: BrowserSessionSnapshot)
        ensures
            tabs_view(final(self).tabs@) == synced_tabs(*old(self)),
            panes_view(final(self).panes@) == synced_panes(*old(self), synced_tabs(*old(self))),
            *final(self) == (FileBrowser { tabs: final(self).tabs, panes: final(self).panes, ..*old(self) }),
            pane_sessions_view(r.panes@) == synced_panes(*old(self), synced_tabs(*old(self))).map_values(
                |p: PaneModel| session_of_pane(p),
            ),
            r.layout == old(self).pane_layout,
    {
        self.sync_active_tab_state();
        let ghost live = panes_view(self.panes@);
        let mut panes: Vec<BrowserPaneSession> = Vec::new();
        let mut i: usize = 0;
        while i < self.panes.len()
            invariant
                i <= self.panes@.len(),
                live == panes_view(self.panes@),
                pane_sessions_view(panes@) == live.take(i as int).map_values(|p: PaneModel| session_of_pane(p)),
            decreases self.panes.len() - i,
        {
            let ghost before = pane_sessions_view(panes@);
            let pane = &self.panes[i];
            panes.push(BrowserPaneSession { id: pane.id, tabs: copy_tabs(&pane.tabs), active_tab_id: pane.active_tab_id });
            proof {
                assert(live[i as int] == pane@);
                assert(pane_sessions_view(panes@) =~= before.push(session_of_pane(live[i as int])));
                assert(live.take(i + 1).map_values(|p: PaneModel| session_of_pane(p)) =~= live.take(i as int).map_values(
                    |p: PaneModel| session_of_pane(p),
                ).push(session_of_pane(live[i as int])));
            }
            i = i + 1;
        }
        proof {
            assert(live.take(i as int) =~= live);
        }
        BrowserSessionSnapshot { panes, layout: self.pane_layout }
    }

    /// A session save has finished: one save fewer is in flight, and its
    /// outcome is handed on.
    pub fn record_browser_session_save_outcome(&mut self, outcome: Result<(), String>) -> (r: Result<(), String>)
        requires
            old(self).browser_session_saves_in_flight > 0,
        ensures
            r == outcome,
            *final(self) == (FileBrowser {
                browser_session_saves_in_flight: (old(self).browser_session_saves_in_flight - 1) as u64,
                ..*old(self)
            }),
    {
        self.browser_session_saves_in_flight = self.browser_session_saves_in_flight - 1;
        outcome
    }

    /// Asks to save the session. With saving off nothing is pending; without
    /// a store, or within the save interval of the last save (its age in
    /// milliseconds, when there was one, is `since_last_save_ms`), the save
    /// stays pending; otherwise a snapshot is saved and one more save is in flight.
    pub fn request_browser_session_save(&mut self, store_open: bool, since_last_save_ms: Option<u64>) -> (r: SessionSaveAction)
        requires
            old(self).browser_session_saves_in_flight < u64::MAX,
        ensures
            !session_saving(*old(self)) ==> r is Skip && *final(self) == (FileBrowser {
                pending_browser_session_save: false,
                ..*old(self)
            }),
            session_saving(*old(self)) && !store_open ==> r is WaitForStore && *final(self) == (FileBrowser {
                pending_browser_session_save: true,
                ..*old(self)
            }),
            session_saving(*old(self)) && store_open && (since_last_save_ms matches Some(ms) && ms < SESSION_SAVE_INTERVAL_MS)
                ==> r is Delay && *final(self) == (FileBrowser { pending_browser_session_save: true, ..*old(self) }),
            session_saving(*old(self)) && store_open && !(since_last_save_ms matches Some(ms) && ms
                < SESSION_SAVE_INTERVAL_MS) ==> snapshot_saved(
                FileBrowser { pending_browser_session_save: false, ..*old(self) },
                *final(self),
                r,
            ),
            *final(self) == (FileBrowser {
                tabs: final(self).tabs,
                panes: final(self).panes,
                pending_browser_session_save: final(self).pending_browser_session_save,
                browser_session_saves_in_flight: final(self).browser_session_saves_in_flight,
                ..*old(self)
            }),
    {
        if !self.should_save_browser_session() {
            self.pending_browser_session_save = false;
            return SessionSaveAction::Skip;
        }
        if !store_open {
            self.pending_browser_session_save = true;
            return SessionSaveAction::WaitForStore;
        }
        if let Some(ms) = since_last_save_ms {
            if ms < SESSION_SAVE_INTERVAL_MS {
                self.pending_browser_session_save = true;
                return SessionSaveAction::Delay;
            }
        }
        self.pending_browser_session_save = false;
        self.start_browser_session_save()
    }

    /// Saves the session now, whatever the interval: with saving off nothing
    /// is pending; without a store nothing happens.
    pub fn flush_browser_session_save(&mut self, store_open: bool) -> (r: SessionSaveAction)
        requires
            old(self).browser_session_saves_in_flight < u64::MAX,
        ensures
            !session_saving(*old(self)) ==> r is Skip && *final(self) == (FileBrowser {
                pending_browser_session_save: false,
                ..*old(self)
            }),
            session_saving(*old(self)) && !store_open ==> r is Skip && *final(self) == *old(self),
            session_saving(*old(self)) && store_open ==> snapshot_saved(
                FileBrowser { pending_browser_session_save: false, ..*old(self) },
                *final(self),
                r,
            ),
            *final(self) == (FileBrowser {
                tabs: final(self).tabs,
                panes: final(self).panes,
                pending_browser_session_save: final(self).pending_browser_session_save,
                browser_session_saves_in_flight: final(self).browser_session_saves_in_flight,
                ..*old(self)
            }),
    {
        if !self.should_save_browser_session() {
            self.pending_browser_session_save = false;
            return SessionSaveAction::Skip;
        }
        if !store_open {
            return SessionSaveAction::Skip;
        }
        self.pending_browser_session_save = false;
        self.start_browser_session_save()
    }

    fn start_browser_session_save(&mut self) -> (r: SessionSaveAction)
        requires
            old(self).browser_session_saves_in_flight < u64::MAX,
        ensures
            snapshot_saved(*old(self), *final(self), r),
    {
        let snapshot = self.browser_session_snapshot();
        self.browser_session_saves_in_flight = self.browser_session_saves_in_flight + 1;
        SessionSaveAction::Save(snapshot)
    }

    /// Carries out a pending save once possible: without an earlier save it
    /// is asked for as usual; once the interval since the last save has
    /// passed it is flushed. Nothing pending, or a last save within the
    /// interval, leaves everything as it is. Otherwise: with saving off the
    /// save is no longer pending; without a store it stays pending (and,
    /// with no earlier save, waits for the store); with a store the snapshot
    /// is saved.
    pub fn maybe_flush_pending_browser_session_save(&mut self, store_open: bool, since_last_save_ms: Option<u64>) -> (r: SessionSaveAction)
        requires
            old(self).browser_session_saves_in_flight < u64::MAX,
        ensures
            !old(self).pending_browser_session_save ==> r is Skip && *final(self) == *old(self),
            old(self).pending_browser_session_save && (since_last_save_ms matches Some(ms) && ms < SESSION_SAVE_INTERVAL_MS)
                ==> r is Skip && *final(self) == *old(self),
            old(self).pending_browser_session_save && !(since_last_save_ms matches Some(ms) && ms < SESSION_SAVE_INTERVAL_MS)
                ==> {
                &&& !session_saving(*old(self)) ==> r is Skip && *final(self) == (FileBrowser {
                    pending_browser_session_save: false,
                    ..*old(self)
                })
                &&& session_saving(*old(self)) && !store_open ==> *final(self) == *old(self) && if since_last_save_ms is None {
                    r is WaitForStore
                } else {
                    r is Skip
                }
                &&& session_saving(*old(self)) && store_open ==> snapshot_saved(
                    FileBrowser { pending_browser_session_save: false, ..*old(self) },
                    *final(self),
                    r,
                )
            },
    {
        if !self.pending_browser_session_save {
            return SessionSaveAction::Skip;
        }
        match since_last_save_ms {
            None => self.request_browser_session_save(store_open, None),
            Some(ms) => if ms >= SESSION_SAVE_INTERVAL_MS {
                self.flush_browser_session_save(store_open)
            } else {
                SessionSaveAction::Skip
            },
        }
    }

    /// How the browser starts under its startup policy: the home directory;
    /// the custom directory when usable (`custom_directory_usable`), else
    /// home with an error; or the saved session, else home with an error.
    pub fn startup_session_plan(
        &self,
        home: &FsPath,
        custom_directory_usable: bool,
        session: Option<BrowserSessionSnapshot>,
    ) -> (r: StartupSessionPlan)
        ensures
            match self.startup_location_policy {
                StartupLocationPolicy::Home => plan_opens(r, home@, None),
                StartupLocationPolicy::CustomDirectory => if custom_directory_usable {
                    plan_opens(r, self.startup_custom_directory@, None)
                } else {
                    plan_opens(r, home@, Some(startup_directory_error(self.startup_custom_directory@)))
                },
                StartupLocationPolicy::PreviousSession => match session {
                    Some(s) => r == StartupSessionPlan::Session(s),
                    None => plan_opens(r, home@, Some(no_session_error())),
                },
            },
    {
        match self.startup_location_policy {
            StartupLocationPolicy::Home => StartupSessionPlan::Directory { directory: home.copy(), error: None },
            StartupLocationPolicy::CustomDirectory => self.startup_directory_plan(
                &self.startup_custom_directory,
                custom_directory_usable,
                home,
            ),
            StartupLocationPolicy::PreviousSession => match session {
                Some(session) => StartupSessionPlan::Session(session),
                None => {
                    let error = String::from_str("No saved view state was found; opening the home directory.");
                    proof {
                        reveal_strlit("No saved view state was found; opening the home directory.");
                    }
                    StartupSessionPlan::Directory { directory: home.copy(), error: Some(error) }
                },
            },
        }
    }

    /// Opens `candidate` when it is usable, else home with an error naming it.
    pub fn startup_directory_plan(&self, candidate: &FsPath, usable: bool, home: &FsPath) -> (r: StartupSessionPlan)
        ensures
            usable ==> plan_opens(r, candidate@, None),
            !usable ==> plan_opens(r, home@, Some(startup_directory_error(candidate@))),
    {
        if usable {
            return StartupSessionPlan::Directory { directory: candidate.copy(), error: None };
        }
        let mut error = String::from_str("Could not open startup directory ");
        proof {
            reveal_strlit("Could not open startup directory ");
        }
        let text = candidate.path_text();
        error.append(text.as_str());
        error.append("; opening the home directory.");
        proof {
            reveal_strlit("; opening the home directory.");
        }
        StartupSessionPlan::Directory { directory: home.copy(), error: Some(error) }
    }
}


/// The panes restored from saved ones, in order, each saved pane with its
/// own usability flags; panes with no restorable tab are dropped.
pub open spec fn restored_panes(sessions: Seq<PaneSessionModel>, usable: Seq<Seq<bool>>) -> Seq<PaneModel>
    decreases sessions.len(),
{
    if sessions.len() == 0 {
        Seq::empty()
    } else {
        let rest = restored_panes(sessions.drop_last(), usable.take(sessions.len() - 1));
        let last = sessions.last();
        let tabs = restorable_tabs(last.tabs, usable[sessions.len() - 1]);
        if tabs.len() > 0 {
            rest.push(restored_pane(last.id, tabs, last.active_tab_id))
        } else {
            rest
        }
    }
}

/// `layout` with `active` as its active pane.
pub open spec fn with_active(layout: BrowserPaneLayout, active: BrowserPaneId) -> BrowserPaneLayout {
    match layout {
        BrowserPaneLayout::Single { .. } => BrowserPaneLayout::Single { active },
        BrowserPaneLayout::Split { axis, first, second, .. } => BrowserPaneLayout::Split { axis, first, second, active },
    }
}

/// The pane a restored window shows: the layout's active pane, else the first.
pub open spec fn restored_active_pane(panes: Seq<PaneModel>, active: BrowserPaneId) -> PaneModel {
    match pane_ids(panes).index_of_first(active) {
        Some(j) => panes[j],
        None => panes[0],
    }
}

/// The error shown when no saved pane could be restored.
pub open spec fn unrestorable_session_error() -> Seq<char> {
    "Saved view state could not be restored; opening the home directory."@
}

/// `shown` is the window's error as `text` gives it.
pub open spec fn error_shown(shown: Option<String>, text: Option<Seq<char>>) -> bool {
    match text {
        Some(t) => shown matches Some(e) && e@ == t,
        None => shown is None,
    }
}

/// `after` shows `directory` alone, as [`FileBrowser::apply_single_startup_directory`]
/// leaves it: one list of it in the primary pane, with nothing listed yet, no
/// history, loading, its one tab in `view_mode`, and `error` shown.
pub open spec fn opened_alone(
    after: FileBrowser,
    view_mode: crate::model::BrowserViewMode,
    directory: PathModel,
    error: Option<Seq<char>>,
) -> bool {
    &&& after.current_dir@ == directory
    &&& after.view_mode == view_mode
    &&& !after.is_trash_view
    &&& after.entries@.len() == 0
    &&& after.deepest_open_column_directory is None
    &&& after.expanded_directories@.len() == 0
    &&& after.back_stack@.len() == 0
    &&& after.forward_stack@.len() == 0
    &&& after.is_loading
    &&& tabs_view(after.tabs@) == seq![TabModel { view_mode, ..crate::panes::fresh_tab(0, directory) }]
    &&& after.active_tab_id == 0
    &&& after.pane_layout == (BrowserPaneLayout::Single { active: BrowserPaneId(0) })
    &&& after.panes@.len() == 1
    &&& after.panes@[0].id == BrowserPaneId(0)
    &&& crate::panes::shows_pane(after, after.panes@[0]@)
    &&& error_shown(after.error, error)
}

/// `after` shows the restored `session` as [`FileBrowser::apply_restored_session`]
/// leaves it, each saved pane with its own usability flags `flags`.
pub open spec fn session_restored(
    after: FileBrowser,
    view_mode: crate::model::BrowserViewMode,
    session: BrowserSessionSnapshot,
    home: PathModel,
    flags: Seq<Seq<bool>>,
) -> bool {
    let restored = restored_panes(pane_sessions_view(session.panes@), flags);
    if restored.len() == 0 {
        opened_alone(after, view_mode, home, Some(unrestorable_session_error()))
    } else {
        let layout = sanitized_layout(session.layout, restored);
        let a = restored_active_pane(restored, layout.active_pane());
        &&& after.error is None
        &&& after.pane_layout == with_active(layout, a.id)
        &&& pane_ids(panes_view(after.panes@)) == pane_ids(restored)
        &&& crate::panes::shows_pane(after, PaneModel { is_loading: true, ..a })
    }
}

/// The startup and session-saving settings are the same in `before` and `after`.
pub open spec fn keeps_settings(before: FileBrowser, after: FileBrowser) -> bool {
    &&& after.startup_location_policy == before.startup_location_policy
    &&& after.save_view_state == before.save_view_state
    &&& after.startup_custom_directory == before.startup_custom_directory
    &&& after.startup_custom_directory_input == before.startup_custom_directory_input
    &&& after.startup_custom_directory_error == before.startup_custom_directory_error
    &&& after.home_dir == before.home_dir
    &&& after.launch_allows_session_persistence == before.launch_allows_session_persistence
    &&& after.pending_browser_session_save == before.pending_browser_session_save
    &&& after.browser_session_saves_in_flight == before.browser_session_saves_in_flight
}

/// The usability flags fit the saved panes: one list per pane, one flag per tab.
pub open spec fn flags_fit(session: BrowserSessionSnapshot, usable: Seq<Vec<bool>>) -> bool {
    &&& usable.len() == session.panes@.len()
    &&& forall|i: int| 0 <= i < usable.len() ==> (#[trigger] usable[i])@.len() == session.panes@[i].tabs@.len()
}

/// The flags as plain sequences.
pub open spec fn flags_of(usable: Seq<Vec<bool>>) -> Seq<Seq<bool>> {
    usable.map_values(|u: Vec<bool>| u@)
}

impl FileBrowser {
    /// Opens `directory` alone: one list of it in the primary pane, with
    /// nothing listed yet, no history, and loading, showing `error`. Its one
    /// tab keeps the current view mode.
    pub fn apply_single_startup_directory(&mut self, directory: FsPath, error: Option<String>)
        ensures
            opened_alone(*final(self), old(self).view_mode, directory@, match error {
                Some(e) => Some(e@),
                None => None,
            }),
            *final(self) == (FileBrowser {
                current_dir: final(self).current_dir,
                is_trash_view: final(self).is_trash_view,
                entries: final(self).entries,
                deepest_open_column_directory: final(self).deepest_open_column_directory,
                expanded_directories: final(self).expanded_directories,
                back_stack: final(self).back_stack,
                forward_stack: final(self).forward_stack,
                is_loading: final(self).is_loading,
                error: final(self).error,
                tabs: final(self).tabs,
                active_tab_id: final(self).active_tab_id,
                pane_layout: final(self).pane_layout,
                panes: final(self).panes,
                ..*old(self)
            }),
    {
        self.current_dir = directory.copy();
        self.is_trash_view = false;
        self.entries = Vec::new();
        self.deepest_open_column_directory = None;
        self.expanded_directories = Vec::new();
        self.back_stack = Vec::new();
        self.forward_stack = Vec::new();
        self.is_loading = true;
        self.error = error;
        let mut tab = BrowserTab::directory(0, directory);
        tab.view_mode = self.view_mode;
        let mut tabs: Vec<BrowserTab> = Vec::new();
        let ghost t = tab@;
        tabs.push(tab);
        self.tabs = tabs;
        self.active_tab_id = 0;
        self.pane_layout = BrowserPaneLayout::Single { active: BrowserPaneId(0) };
        proof {
            assert(t.entries =~= Seq::empty());
            assert(t.selected_paths =~= Seq::empty());
            assert(t.back_stack =~= Seq::empty());
            assert(t.forward_stack =~= Seq::empty());
            assert(tabs_view(self.tabs@) =~= seq![t]);
        }
        let first = self.tabs[0].copy();
        let pane = BrowserPane {
            id: BrowserPaneId(0),
            current_dir: self.current_dir.copy(),
            is_trash_view: false,
            view_mode: self.view_mode,
            deepest_open_column_directory: None,
            entries: Vec::new(),
            selected: copy_opt_path(&self.selected),
            selected_paths: copy_paths(self.selected_paths.as_slice()),
            tabs: copy_tabs(&self.tabs),
            active_tab_id: 0,
            path_input: path_input_for_tab(&first),
            back_stack: Vec::new(),
            forward_stack: Vec::new(),
            is_loading: true,
        };
        let mut panes: Vec<BrowserPane> = Vec::new();
        panes.push(pane);
        self.panes = panes;
        proof {
            let p = self.panes@[0]@;
            assert(p.entries =~= crate::tab_state::entries_view(self.entries@));
            assert(p.back_stack =~= crate::drag::paths_view(self.back_stack@));
            assert(p.forward_stack =~= crate::drag::paths_view(self.forward_stack@));
        }
    }

    /// Restores a saved window. Each saved pane is rebuilt with its own
    /// usability flags ([`restored_pane_from_session`]); when none remains,
    /// the home directory opens alone with an error. Otherwise the restored
    /// panes replace the live ones, the saved layout is checked
    /// ([`sanitize_layout`]), its active pane (else the first) becomes active
    /// and is shown, loading, and the error is cleared.
    pub fn apply_restored_session(
        &mut self,
        session: BrowserSessionSnapshot,
        home: &FsPath,
        usable: &Vec<Vec<bool>>,
    )
        requires
            flags_fit(session, usable@),
        ensures
            session_restored(*final(self), old(self).view_mode, session, home@, flags_of(usable@)),
            keeps_settings(*old(self), *final(self)),
    {
        let ghost flags = usable@.map_values(|u: Vec<bool>| u@);
        let ghost sessions = pane_sessions_view(session.panes@);
        let mut restored: Vec<BrowserPane> = Vec::new();
        let mut panes = session.panes;
        let layout = session.layout;
        let ghost all = panes@;
        let mut k: usize = 0;
        let n = panes.len();
        let mut remaining: Vec<BrowserPaneSession> = Vec::new();
        while panes.len() > 0
            invariant
                k + panes@.len() == n,
                n == all.len(),
                panes@ == all.subrange(k as int, n as int),
                usable@.len() == n,
                forall|i: int| 0 <= i < usable@.len() ==> (#[trigger] usable@[i])@.len() == all[i].tabs@.len(),
                flags == usable@.map_values(|u: Vec<bool>| u@),
                sessions == pane_sessions_view(all),
                panes_view(restored@) == restored_panes(sessions.take(k as int), flags.take(k as int)),
            decreases panes@.len(),
        {
            let pane = panes.remove(0);
            proof {
                assert(pane == all[k as int]);
                assert(sessions.take(k + 1).drop_last() =~= sessions.take(k as int));
                assert(flags.take(k + 1).take(k as int) =~= flags.take(k as int));
                assert(sessions.take(k + 1).last() == pane@);
                assert(flags.take(k + 1)[k as int] == usable@[k as int]@);
                assert(panes@ =~= all.subrange(k + 1, n as int));
            }
            let ghost before = panes_view(restored@);
            match restored_pane_from_session(pane, &usable[k]) {
                Some(p) => {
                    restored.push(p);
                    proof {
                        assert(panes_view(restored@) =~= before.push(restored@.last()@));
                    }
                },
                None => {},
            }
            k = k + 1;
        }
        proof {
            assert(sessions.take(k as int) =~= sessions);
            assert(flags.take(k as int) =~= flags);
        }
        if restored.len() == 0 {
            let error = String::from_str("Saved view state could not be restored; opening the home directory.");
            proof {
                reveal_strlit("Saved view state could not be restored; opening the home directory.");
            }
            self.apply_single_startup_directory(home.copy(), Some(error));
            return;
        }
        let checked = sanitize_layout(layout, &restored);
        let found = pane_index(&restored, checked.active());
        proof {
            pane_ids(panes_view(restored@)).index_of_first_ensures(checked.active_pane());
        }
        let active_pane = match found {
            Some(j) => restored[j].copy(),
            None => restored[0].copy(),
        };
        self.pane_layout = match checked {
            BrowserPaneLayout::Single { .. } => BrowserPaneLayout::Single { active: active_pane.id },
            BrowserPaneLayout::Split { axis, first, second, .. } => BrowserPaneLayout::Split {
                axis,
                first,
                second,
                active: active_pane.id,
            },
        };
        let ghost shown = active_pane@;
        let ghost restored_view = panes_view(restored@);
        self.panes = restored;
        self.restore_pane_snapshot(active_pane);
        self.is_loading = true;
        self.error = None;
        let ghost mid = *self;
        self.sync_active_pane_state();
        proof {
            crate::panes::lemma_synced_panes_ids(mid, tabs_view(mid.tabs@));
            assert(pane_ids(panes_view(mid.panes@)) == pane_ids(restored_view));
            assert(self.pane_layout == with_active(checked, shown.id));
        }
    }
}
} // verus!
