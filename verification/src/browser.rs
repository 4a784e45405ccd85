use vstd::prelude::*;

use crate::breadcrumb_drop::PendingWaylandFileDrop;
use crate::marquee::SelectionMarquee;
use crate::conflict::{DestructiveActionConfirmation, TransferConflictState};
use crate::drag::FileDragState;
use crate::file_drop::{FileClipboardSelection, FileDropSessionState};
use crate::fs_path::{FsPath, PathModel, path_text_of};
use crate::sidebar_bookmarks::{SidebarBookmarkDragState, SidebarLocation};
use crate::spring::FileDragSpringHover;
use crate::tabs::{TabAnimationState, TabBarReveal, TabDragState};
use crate::model::{
    BrowserPaneId, BrowserViewMode, FileDropTarget, FileKind, KeyboardModifiers,
    SidebarBookmarkDropSlot, TabDestinationModel, TabDropDestination,
};

verus! {

/// One entry of a listed directory.
#[derive(Debug, Clone, PartialEq, Eq)]
pub struct DirectoryEntry {
    pub path: FsPath,
    pub kind: FileKind,
}

/// The loading state of an expanded directory's children.
#[derive(Debug, Clone, Copy, PartialEq, Eq, Structural)]
pub enum ExpandedDirectoryStatus {
    Loading,
    Loaded,
    Failed,
}

/// A directory opened as a tree node or a column, with its children.
#[derive(Debug, Clone, PartialEq, Eq)]
pub struct ExpandedDirectory {
    pub path: FsPath,
    pub entries: Vec<DirectoryEntry>,
    pub status: ExpandedDirectoryStatus,
    pub is_expanded: bool,
}

/// One tab of a pane and the view state it keeps while in the background.
#[derive(Debug, Clone, PartialEq, Eq)]
pub struct BrowserTab {
    pub id: usize,
    pub directory: FsPath,
    pub is_trash_view: bool,
    pub view_mode: BrowserViewMode,
    pub deepest_open_column_directory: Option<FsPath>,
    pub entries: Vec<DirectoryEntry>,
    pub selected: Option<FsPath>,
    pub selected_paths: Vec<FsPath>,
    pub back_stack: Vec<FsPath>,
    pub forward_stack: Vec<FsPath>,
}

/// Where a drop onto a tab lands: the trash for a trash tab; in column view
/// the deepest open column, when one is open; otherwise the tab's directory.
pub open spec fn tab_drop_destination(tab: BrowserTab) -> TabDestinationModel {
    if tab.is_trash_view {
        TabDestinationModel::Trash
    } else if tab.view_mode == BrowserViewMode::Columns && tab.deepest_open_column_directory is Some {
        TabDestinationModel::Directory(tab.deepest_open_column_directory.unwrap()@)
    } else {
        TabDestinationModel::Directory(tab.directory@)
    }
}

impl BrowserTab {
    /// A fresh list-view tab showing `directory`.
    pub fn directory(id: usize, directory: FsPath) -> (r: BrowserTab)
        ensures
            r.id == id,
            r.directory == directory,
            !r.is_trash_view,
            r.view_mode == BrowserViewMode::List,
            r.deepest_open_column_directory is None,
            r.entries@.len() == 0,
            r.selected is None,
            r.selected_paths@.len() == 0,
            r.back_stack@.len() == 0,
            r.forward_stack@.len() == 0,
    {
        BrowserTab {
            id,
            directory,
            is_trash_view: false,
            view_mode: BrowserViewMode::List,
            deepest_open_column_directory: None,
            entries: Vec::new(),
            selected: None,
            selected_paths: Vec::new(),
            back_stack: Vec::new(),
            forward_stack: Vec::new(),
        }
    }

    /// A fresh tab showing the trash.
    pub fn trash(id: usize) -> (r: BrowserTab)
        ensures
            r.id == id,
            r.is_trash_view,
            r.view_mode == BrowserViewMode::List,
            r.deepest_open_column_directory is None,
            r.entries@.len() == 0,
            r.selected is None,
            r.selected_paths@.len() == 0,
            r.directory@ == crate::drop_target::trash_location(),
            r.back_stack@.len() == 0,
            r.forward_stack@.len() == 0,
    {
        BrowserTab {
            id,
            directory: crate::drop_target::trash_location_path(),
            is_trash_view: true,
            view_mode: BrowserViewMode::List,
            deepest_open_column_directory: None,
            entries: Vec::new(),
            selected: None,
            selected_paths: Vec::new(),
            back_stack: Vec::new(),
            forward_stack: Vec::new(),
        }
    }

    /// Where a drop onto this tab lands: see [`tab_drop_destination`].
    pub fn file_drop_destination(&self) -> (r: TabDropDestination)
        ensures
            r@ == tab_drop_destination(*self),
    {
        if self.is_trash_view {
            return TabDropDestination::Trash;
        }
        if self.view_mode == BrowserViewMode::Columns {
            if let Some(deepest) = &self.deepest_open_column_directory {
                return TabDropDestination::Directory(deepest.copy());
            }
        }
        TabDropDestination::Directory(self.directory.copy())
    }
}


/// The two ways a split divides the window.
#[derive(Debug, Clone, Copy, PartialEq, Eq, Structural)]
pub enum SplitAxis {
    Horizontal,
    Vertical,
}

/// How the panes share the window, and which one is active.
#[derive(Debug, Clone, Copy, PartialEq, Eq, Structural)]
pub enum BrowserPaneLayout {
    Single { active: BrowserPaneId },
    Split { axis: SplitAxis, first: BrowserPaneId, second: BrowserPaneId, active: BrowserPaneId },
}

impl BrowserPaneLayout {
    /// The active pane.
    pub open spec fn active_pane(self) -> BrowserPaneId {
        match self {
            BrowserPaneLayout::Single { active } => active,
            BrowserPaneLayout::Split { active, .. } => active,
        }
    }

    /// The active pane.
    pub fn active(&self) -> (r: BrowserPaneId)
        ensures
            r == self.active_pane(),
    {
        match self {
            BrowserPaneLayout::Single { active } => *active,
            BrowserPaneLayout::Split { active, .. } => *active,
        }
    }
}

/// One pane: its tabs and the view state of its active tab.
#[derive(Debug, Clone, PartialEq, Eq)]
pub struct BrowserPane {
    pub id: BrowserPaneId,
    pub current_dir: FsPath,
    pub is_trash_view: bool,
    pub view_mode: BrowserViewMode,
    pub deepest_open_column_directory: Option<FsPath>,
    pub entries: Vec<DirectoryEntry>,
    pub selected: Option<FsPath>,
    pub selected_paths: Vec<FsPath>,
    pub tabs: Vec<BrowserTab>,
    pub active_tab_id: usize,
    pub path_input: String,
    pub back_stack: Vec<FsPath>,
    pub forward_stack: Vec<FsPath>,
    pub is_loading: bool,
}

/// A context menu that is open, with the directory that a paste from it targets.
#[derive(Debug, Clone, PartialEq, Eq)]
pub struct ContextMenuState {
    pub paste_directory: Option<FsPath>,
}

/// The first entry of `entries` at `path`, if any, gives the path's kind.
pub open spec fn kind_in_entries(entries: Seq<DirectoryEntry>, path: PathModel) -> Option<FileKind>
    decreases entries.len(),
{
    if entries.len() == 0 {
        None
    } else if entries[0].path@ == path {
        Some(entries[0].kind)
    } else {
        kind_in_entries(entries.drop_first(), path)
    }
}

/// The kind of `path` as listed in the expanded directories, searched in order.
pub open spec fn kind_in_expanded(expanded: Seq<ExpandedDirectory>, path: PathModel) -> Option<FileKind>
    decreases expanded.len(),
{
    if expanded.len() == 0 {
        None
    } else {
        match kind_in_entries(expanded[0].entries@, path) {
            Some(kind) => Some(kind),
            None => kind_in_expanded(expanded.drop_first(), path),
        }
    }
}

/// Finds the kind of `path` among `entries`.
pub fn entry_kind_in(entries: &Vec<DirectoryEntry>, path: &FsPath) -> (r: Option<FileKind>)
    ensures
        r == kind_in_entries(entries@, path@),
{
    let mut i: usize = 0;
    assert(entries@.skip(0) =~= entries@);
    while i < entries.len()
        invariant
            i <= entries.len(),
            kind_in_entries(entries@, path@) == kind_in_entries(entries@.skip(i as int), path@),
        decreases entries.len() - i,
    {
        proof {
            assert(entries@.skip(i as int).drop_first() =~= entries@.skip(i + 1));
        }
        if entries[i].path.same_path(path) {
            return Some(entries[i].kind);
        }
        i = i + 1;
    }
    None
}


/// Modal or focused surfaces other than prompts; each one takes keyboard
/// input away from the file view.
#[derive(Debug, Clone, Copy, PartialEq, Eq, Default, Structural)]
pub struct OpenSurfaces {
    pub open_with: bool,
    pub archive_creation: bool,
    pub archive_extraction: bool,
    pub batch_rename: bool,
    pub network_connection_editor: bool,
    pub renaming: bool,
    pub shortcut_capture: bool,
    pub operation_queue_panel: bool,
}

/// A drop of outside files waiting for the user to pick copy or move.
#[derive(Debug, Clone, PartialEq, Eq)]
pub struct FileDropPrompt {
    pub paste_directory: FsPath,
    pub paths: Vec<FsPath>,
}

/// Where the browser opens at startup.
#[derive(Debug, Clone, Copy, PartialEq, Eq, Structural)]
pub enum StartupLocationPolicy {
    Home,
    CustomDirectory,
    PreviousSession,
}

impl StartupLocationPolicy {
    /// Only restoring the previous session needs the view state saved.
    pub open spec fn keeps_view_state(self) -> bool {
        self == StartupLocationPolicy::PreviousSession
    }

    /// Only restoring the previous session needs the view state saved.
    pub fn saves_view_state(&self) -> (r: bool)
        ensures
            r == self.keeps_view_state(),
    {
        *self == StartupLocationPolicy::PreviousSession
    }
}

/// A check, run away from the interface, that a typed startup directory exists.
#[derive(Debug, Clone, PartialEq, Eq)]
pub struct StartupDirectoryValidationRequest {
    pub generation: u64,
    pub input: String,
    pub directory: FsPath,
}

/// The window state that the browser's decisions read and change.
pub struct FileBrowser {
    pub current_dir: FsPath,
    pub is_trash_view: bool,
    pub is_loading: bool,
    pub view_mode: BrowserViewMode,
    pub entries: Vec<DirectoryEntry>,
    pub expanded_directories: Vec<ExpandedDirectory>,
    pub deepest_open_column_directory: Option<FsPath>,
    pub selected: Option<FsPath>,
    pub selected_paths: Vec<FsPath>,
    pub back_stack: Vec<FsPath>,
    pub forward_stack: Vec<FsPath>,
    pub tabs: Vec<BrowserTab>,
    pub active_tab_id: usize,
    pub next_tab_id: usize,
    pub tab_animations: Vec<TabAnimationState>,
    pub tab_bar_reveal: TabBarReveal,
    pub tab_drag: Option<TabDragState>,
    pub panes: Vec<BrowserPane>,
    pub pane_layout: BrowserPaneLayout,
    pub keyboard_modifiers: KeyboardModifiers,
    pub remote_mount_points: Vec<FsPath>,
    pub file_drag: Option<FileDragState>,
    pub file_drop_session: Option<FileDropSessionState>,
    pub next_file_drag_gesture_id: u64,
    pub file_drop_layout_generation: u64,
    /// The measured drop areas no longer match what is shown.
    pub file_drop_layout_stale: bool,
    pub breadcrumb_drop_target_measurement_generation: u64,
    pub hovered_entry: Option<FsPath>,
    pub hovered_sidebar: Option<FsPath>,
    pub cursor_paste_directory: Option<FsPath>,
    pub file_drag_spring_hover: Option<FileDragSpringHover>,
    pub sidebar_locations: Vec<SidebarLocation>,
    pub sidebar_bookmark_drop_slot: Option<SidebarBookmarkDropSlot>,
    pub sidebar_bookmark_motion: Vec<FsPath>,
    pub sidebar_bookmark_drag: Option<SidebarBookmarkDragState>,
    pub context_menu: Option<ContextMenuState>,
    pub transfer_conflict: Option<TransferConflictState>,
    pub destructive_action_confirmation: Option<DestructiveActionConfirmation>,
    pub file_drop_prompt: Option<FileDropPrompt>,
    pub surfaces: OpenSurfaces,
    pub focused_window: u64,
    pub settings_window: Option<u64>,
    pub properties_window: Option<u64>,
    pub preview_window: Option<u64>,
    pub launch_allows_session_persistence: bool,
    pub startup_location_policy: StartupLocationPolicy,
    pub save_view_state: bool,
    pub pending_browser_session_save: bool,
    pub browser_session_saves_in_flight: u64,
    pub startup_custom_directory: FsPath,
    pub startup_custom_directory_input: String,
    pub startup_custom_directory_error: Option<String>,
    pub startup_directory_validation_generation: u64,
    pub pending_startup_directory_validation: Option<StartupDirectoryValidationRequest>,
    /// The error shown across the window, if any.
    pub error: Option<String>,
    /// The user's home directory.
    pub home_dir: FsPath,
    /// The path whose preview is shown or loading, if any.
    pub preview: Option<FsPath>,
    /// The last copy or cut made in this window, pasted when the desktop
    /// clipboard holds nothing usable.
    pub pending_operation: Option<crate::file_drop::FileClipboardSelection>,
    /// The storage device, by id, whose mount, unmount or eject is under way.
    pub pending_sidebar_device_action: Option<String>,
    /// A Wayland drop waiting for the breadcrumb drop areas to be measured.
    pub pending_wayland_file_drop: Option<PendingWaylandFileDrop>,
    /// Where a drag selection started, once it has an anchor.
    pub drag_selection_anchor: Option<FsPath>,
    /// The selection marquee under way, if any.
    pub selection_marquee: Option<SelectionMarquee>,
}

/// A tab with id `id` as [`BrowserTab::directory`] makes it: a list view of
/// its directory with no history, nothing selected and nothing listed yet.
pub open spec fn fresh_tab(tab: BrowserTab, id: usize) -> bool {
    &&& tab.id == id
    &&& !tab.is_trash_view
    &&& tab.view_mode == BrowserViewMode::List
    &&& tab.deepest_open_column_directory is None
    &&& tab.entries@.len() == 0
    &&& tab.selected is None
    &&& tab.selected_paths@.len() == 0
    &&& tab.back_stack@.len() == 0
    &&& tab.forward_stack@.len() == 0
}

impl FileBrowser {
    /// A browser showing `directory` in one pane with one list-view tab. It
    /// is loading that directory; nothing is selected, dragged, dropped,
    /// animated or open besides; the startup directory and the home directory
    /// are `directory` until the environment says otherwise.
    pub fn new(directory: FsPath) -> (r: FileBrowser)
        ensures
            r == (FileBrowser {
                current_dir: r.current_dir,
                is_trash_view: false,
                is_loading: true,
                view_mode: BrowserViewMode::List,
                entries: r.entries,
                expanded_directories: r.expanded_directories,
                deepest_open_column_directory: None,
                selected: None,
                selected_paths: r.selected_paths,
                back_stack: r.back_stack,
                forward_stack: r.forward_stack,
                tabs: r.tabs,
                active_tab_id: 0,
                next_tab_id: 1,
                tab_animations: r.tab_animations,
                tab_bar_reveal: TabBarReveal::Hidden,
                tab_drag: None,
                panes: r.panes,
                pane_layout: BrowserPaneLayout::Single { active: BrowserPaneId(0) },
                keyboard_modifiers: KeyboardModifiers { control: false, shift: false, alt: false, command: false },
                remote_mount_points: r.remote_mount_points,
                file_drag: None,
                file_drop_session: None,
                next_file_drag_gesture_id: 0,
                file_drop_layout_generation: 0,
                file_drop_layout_stale: false,
                breadcrumb_drop_target_measurement_generation: 0,
                hovered_entry: None,
                hovered_sidebar: None,
                cursor_paste_directory: None,
                file_drag_spring_hover: None,
                sidebar_locations: r.sidebar_locations,
                sidebar_bookmark_drop_slot: None,
                sidebar_bookmark_motion: r.sidebar_bookmark_motion,
                sidebar_bookmark_drag: None,
                context_menu: None,
                transfer_conflict: None,
                destructive_action_confirmation: None,
                file_drop_prompt: None,
                surfaces: OpenSurfaces {
                    open_with: false,
                    archive_creation: false,
                    archive_extraction: false,
                    batch_rename: false,
                    network_connection_editor: false,
                    renaming: false,
                    shortcut_capture: false,
                    operation_queue_panel: false,
                },
                focused_window: 0,
                settings_window: None,
                properties_window: None,
                preview_window: None,
                launch_allows_session_persistence: true,
                startup_location_policy: StartupLocationPolicy::Home,
                save_view_state: false,
                pending_browser_session_save: false,
                browser_session_saves_in_flight: 0,
                startup_custom_directory: r.startup_custom_directory,
                startup_custom_directory_input: r.startup_custom_directory_input,
                startup_custom_directory_error: None,
                startup_directory_validation_generation: 0,
                pending_startup_directory_validation: None,
                error: None,
                home_dir: r.home_dir,
                preview: None,
                pending_operation: None,
                pending_sidebar_device_action: None,
                pending_wayland_file_drop: None,
                drag_selection_anchor: None,
                selection_marquee: None,
            }),
            r.current_dir@ == directory@,
            r.startup_custom_directory@ == directory@,
            r.home_dir@ == directory@,
            r.startup_custom_directory_input@ == path_text_of(directory@),
            r.entries@.len() == 0,
            r.expanded_directories@.len() == 0,
            r.selected_paths@.len() == 0,
            r.back_stack@.len() == 0,
            r.forward_stack@.len() == 0,
            r.tab_animations@.len() == 0,
            r.remote_mount_points@.len() == 0,
            r.sidebar_locations@.len() == 0,
            r.sidebar_bookmark_motion@.len() == 0,
            r.tabs@.len() == 1,
            r.tabs@[0].directory == directory,
            fresh_tab(r.tabs@[0], 0),
            r.panes@.len() == 1,
            ({
                let pane = r.panes@[0];
                &&& pane.id == BrowserPaneId(0)
                &&& pane.current_dir@ == directory@
                &&& !pane.is_trash_view
                &&& pane.view_mode == BrowserViewMode::List
                &&& pane.deepest_open_column_directory is None
                &&& pane.entries@.len() == 0
                &&& pane.selected is None
                &&& pane.selected_paths@.len() == 0
                &&& pane.tabs@.len() == 1
                &&& pane.tabs@[0].directory@ == directory@
                &&& fresh_tab(pane.tabs@[0], 0)
                &&& pane.active_tab_id == 0
                &&& pane.path_input@ == path_text_of(directory@)
                &&& pane.back_stack@.len() == 0
                &&& pane.forward_stack@.len() == 0
                &&& pane.is_loading
            }),
    {
        let current_dir = directory.copy();
        let pane_dir = directory.copy();
        let custom = directory.copy();
        let home_dir = directory.copy();
        let input = directory.path_text();
        let tab = BrowserTab::directory(0, directory);
        let pane_tab = BrowserTab::directory(0, pane_dir.copy());
        let mut tabs: Vec<BrowserTab> = Vec::new();
        tabs.push(tab);
        let mut pane_tabs: Vec<BrowserTab> = Vec::new();
        pane_tabs.push(pane_tab);
        let pane_input = pane_dir.path_text();
        let mut panes: Vec<BrowserPane> = Vec::new();
        panes.push(BrowserPane {
            id: BrowserPaneId(0),
            current_dir: pane_dir,
            is_trash_view: false,
            view_mode: BrowserViewMode::List,
            deepest_open_column_directory: None,
            entries: Vec::new(),
            selected: None,
            selected_paths: Vec::new(),
            tabs: pane_tabs,
            active_tab_id: 0,
            path_input: pane_input,
            back_stack: Vec::new(),
            forward_stack: Vec::new(),
            is_loading: true,
        });
        FileBrowser {
            current_dir,
            is_trash_view: false,
            is_loading: true,
            view_mode: BrowserViewMode::List,
            entries: Vec::new(),
            expanded_directories: Vec::new(),
            deepest_open_column_directory: None,
            selected: None,
            selected_paths: Vec::new(),
            back_stack: Vec::new(),
            forward_stack: Vec::new(),
            tabs,
            active_tab_id: 0,
            next_tab_id: 1,
            tab_animations: Vec::new(),
            tab_bar_reveal: TabBarReveal::Hidden,
            tab_drag: None,
            panes,
            pane_layout: BrowserPaneLayout::Single { active: BrowserPaneId(0) },
            keyboard_modifiers: KeyboardModifiers { control: false, shift: false, alt: false, command: false },
            remote_mount_points: Vec::new(),
            file_drag: None,
            file_drop_session: None,
            next_file_drag_gesture_id: 0,
            file_drop_layout_generation: 0,
            file_drop_layout_stale: false,
            breadcrumb_drop_target_measurement_generation: 0,
            hovered_entry: None,
            hovered_sidebar: None,
            cursor_paste_directory: None,
            file_drag_spring_hover: None,
            sidebar_locations: Vec::new(),
            sidebar_bookmark_drop_slot: None,
            sidebar_bookmark_motion: Vec::new(),
            sidebar_bookmark_drag: None,
            context_menu: None,
            transfer_conflict: None,
            destructive_action_confirmation: None,
            file_drop_prompt: None,
            surfaces: OpenSurfaces {
                open_with: false,
                archive_creation: false,
                archive_extraction: false,
                batch_rename: false,
                network_connection_editor: false,
                renaming: false,
                shortcut_capture: false,
                operation_queue_panel: false,
            },
            focused_window: 0,
            settings_window: None,
            properties_window: None,
            preview_window: None,
            launch_allows_session_persistence: true,
            startup_location_policy: StartupLocationPolicy::Home,
            save_view_state: false,
            pending_browser_session_save: false,
            browser_session_saves_in_flight: 0,
            startup_custom_directory: custom,
            startup_custom_directory_input: input,
            startup_custom_directory_error: None,
            startup_directory_validation_generation: 0,
            pending_startup_directory_validation: None,
            error: None,
            home_dir,
            preview: None,
            pending_operation: None,
            pending_sidebar_device_action: None,
            pending_wayland_file_drop: None,
            drag_selection_anchor: None,
            selection_marquee: None,
        }
    }

    /// The pane that has focus.
    pub open spec fn active_pane(&self) -> BrowserPaneId {
        self.pane_layout.active_pane()
    }

    /// The pane that has focus.
    pub fn active_pane_id(&self) -> (r: BrowserPaneId)
        ensures
            r == self.active_pane(),
    {
        self.pane_layout.active()
    }

    /// The kind of `path` as listed in the current directory or an expanded one.
    pub open spec fn kind_of(&self, path: PathModel) -> Option<FileKind> {
        match kind_in_entries(self.entries@, path) {
            Some(kind) => Some(kind),
            None => kind_in_expanded(self.expanded_directories@, path),
        }
    }

    /// The kind of `path` as listed in the current directory or an expanded one.
    pub fn entry_kind(&self, path: &FsPath) -> (r: Option<FileKind>)
        ensures
            r == self.kind_of(path@),
    {
        if let Some(kind) = entry_kind_in(&self.entries, path) {
            return Some(kind);
        }
        let mut i: usize = 0;
        assert(self.expanded_directories@.skip(0) =~= self.expanded_directories@);
        while i < self.expanded_directories.len()
            invariant
                i <= self.expanded_directories.len(),
                kind_in_entries(self.entries@, path@) is None,
                kind_in_expanded(self.expanded_directories@, path@)
                    == kind_in_expanded(self.expanded_directories@.skip(i as int), path@),
            decreases self.expanded_directories.len() - i,
        {
            proof {
                assert(self.expanded_directories@.skip(i as int).drop_first() =~= self.expanded_directories@.skip(i + 1));
                assert(self.expanded_directories@.skip(i as int)[0] == self.expanded_directories@[i as int]);
            }
            let found = entry_kind_in(&self.expanded_directories[i].entries, path);
            proof {
                let rest = self.expanded_directories@.skip(i as int);
                assert(rest.len() > 0);
                assert(kind_in_expanded(rest, path@) == match kind_in_entries(rest[0].entries@, path@) {
                    Some(kind) => Some(kind),
                    None => kind_in_expanded(rest.drop_first(), path@),
                });
            }
            if let Some(kind) = found {
                return Some(kind);
            }
            i = i + 1;
        }
        None
    }

    /// `path` lies on a mount of a remote file system.
    pub open spec fn on_remote_mount(&self, path: PathModel) -> bool {
        exists|i: int| 0 <= i < self.remote_mount_points@.len()
            && crate::fs_path::path_starts_with(path, #[trigger] self.remote_mount_points@[i]@)
    }

    /// `path` lies on a mount of a remote file system.
    pub fn path_is_remote_mount(&self, path: &FsPath) -> (r: bool)
        ensures
            r == self.on_remote_mount(path@),
    {
        let mut i: usize = 0;
        while i < self.remote_mount_points.len()
            invariant
                i <= self.remote_mount_points.len(),
                forall|j: int| 0 <= j < i ==> !crate::fs_path::path_starts_with(path@, #[trigger] self.remote_mount_points@[j]@),
            decreases self.remote_mount_points.len() - i,
        {
            if path.starts_with(&self.remote_mount_points[i]) {
                return true;
            }
            i = i + 1;
        }
        false
    }
}


/// The index of the first element of `tabs` with id `tab_id`.
pub open spec fn tab_position(tabs: Seq<BrowserTab>, tab_id: usize) -> Option<int> {
    if exists|i: int| 0 <= i < tabs.len() && (#[trigger] tabs[i]).id == tab_id {
        Some(choose|i: int| 0 <= i < tabs.len() && tabs[i].id == tab_id
            && forall|k: int| 0 <= k < i ==> (#[trigger] tabs[k]).id != tab_id)
    } else {
        None
    }
}

/// Finds the first tab of `tabs` with id `tab_id`.
pub fn find_tab(tabs: &Vec<BrowserTab>, tab_id: usize) -> (r: Option<usize>)
    ensures
        match r {
            Some(i) => i < tabs@.len() && tabs@[i as int].id == tab_id
                && forall|k: int| 0 <= k < i ==> (#[trigger] tabs@[k]).id != tab_id,
            None => forall|k: int| 0 <= k < tabs@.len() ==> (#[trigger] tabs@[k]).id != tab_id,
        },
        match r {
            Some(i) => tab_position(tabs@, tab_id) == Some(i as int),
            None => tab_position(tabs@, tab_id) is None,
        },
{
    let mut i: usize = 0;
    while i < tabs.len()
        invariant
            i <= tabs.len(),
            forall|k: int| 0 <= k < i ==> (#[trigger] tabs@[k]).id != tab_id,
        decreases tabs.len() - i,
    {
        if tabs[i].id == tab_id {
            proof {
                let c = choose|j: int| 0 <= j < tabs@.len() && tabs@[j].id == tab_id
                    && forall|k: int| 0 <= k < j ==> (#[trigger] tabs@[k]).id != tab_id;
                assert(0 <= i < tabs@.len() && tabs@[i as int].id == tab_id
                    && forall|k: int| 0 <= k < i ==> (#[trigger] tabs@[k]).id != tab_id);
                if c < i {
                    assert(tabs@[c].id != tab_id);
                } else if c > i {
                    assert(tabs@[i as int].id != tab_id);
                }
            }
            return Some(i);
        }
        i = i + 1;
    }
    None
}

/// The index of the first pane with id `pane_id`.
pub open spec fn pane_position(panes: Seq<BrowserPane>, pane_id: BrowserPaneId) -> Option<int> {
    if exists|i: int| 0 <= i < panes.len() && (#[trigger] panes[i]).id == pane_id {
        Some(choose|i: int| 0 <= i < panes.len() && panes[i].id == pane_id
            && forall|k: int| 0 <= k < i ==> (#[trigger] panes[k]).id != pane_id)
    } else {
        None
    }
}

/// Finds the first pane of `panes` with id `pane_id`.
pub fn find_pane(panes: &Vec<BrowserPane>, pane_id: BrowserPaneId) -> (r: Option<usize>)
    ensures
        match r {
            Some(i) => i < panes@.len() && panes@[i as int].id == pane_id
                && forall|k: int| 0 <= k < i ==> (#[trigger] panes@[k]).id != pane_id,
            None => forall|k: int| 0 <= k < panes@.len() ==> (#[trigger] panes@[k]).id != pane_id,
        },
        match r {
            Some(i) => pane_position(panes@, pane_id) == Some(i as int),
            None => pane_position(panes@, pane_id) is None,
        },
{
    let mut i: usize = 0;
    while i < panes.len()
        invariant
            i <= panes.len(),
            forall|k: int| 0 <= k < i ==> (#[trigger] panes@[k]).id != pane_id,
        decreases panes.len() - i,
    {
        if panes[i].id == pane_id {
            proof {
                let c = choose|j: int| 0 <= j < panes@.len() && panes@[j].id == pane_id
                    && forall|k: int| 0 <= k < j ==> (#[trigger] panes@[k]).id != pane_id;
                assert(0 <= i < panes@.len() && panes@[i as int].id == pane_id
                    && forall|k: int| 0 <= k < i ==> (#[trigger] panes@[k]).id != pane_id);
                if c < i {
                    assert(panes@[c].id != pane_id);
                } else if c > i {
                    assert(panes@[i as int].id != pane_id);
                }
            }
            return Some(i);
        }
        i = i + 1;
    }
    None
}

} // verus!
