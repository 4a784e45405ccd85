use vstd::prelude::*;

use crate::browser::FileBrowser;
use crate::browser::{BrowserTab, find_pane, find_tab, pane_position, tab_drop_destination, tab_position};
use crate::drag::{copy_paths, directory_target_needs_fallback, paths_view, safe_file_drop_target, same_paths};
use crate::drop_target::{EntryDropHit, FileDropHit, SidebarDirectoryHit, resolve_file_drop_target, resolved_drop_target, trash_location, trash_location_path};
use crate::fs_path::{FsPath, PathModel};
use crate::model::{
    BrowserPaneId, DropTargetModel, TabDestinationModel, TabDropDestination, TabTargetModel, FileDropTarget, SidebarBookmarkDropSlot, TabFileDropTarget,
    copy_opt_path, opt_path_view, opt_target_view, same_opt_target,
};

verus! {

/// Identifies a drop session by the drag that drives it.
#[derive(Debug, Clone, Copy, PartialEq, Eq, Structural)]
pub enum FileDropSessionIdentity {
    /// An in-window drag, by its gesture number.
    Iced(u64),
    /// A Wayland drag-and-drop offer, by its session number.
    Wayland(u64),
    /// An X11 drag-and-drop offer, by its session number.
    X11(u64),
}

/// Whether a file selection is copied or moved.
#[derive(Debug, Clone, Copy, PartialEq, Eq, Structural)]
pub enum FileClipboardOperation {
    Copy,
    Move,
}

/// Paths offered by a clipboard or a drop, with the operation asked for.
#[derive(Debug, Clone, PartialEq, Eq)]
pub struct FileClipboardSelection {
    pub operation: FileClipboardOperation,
    pub paths: Vec<FsPath>,
}

/// What an in-window drag carries into its drop session.
#[derive(Debug, Clone, PartialEq, Eq)]
pub struct InternalFileDragSnapshot {
    pub source_session_id: Option<u64>,
    pub sources: Vec<FsPath>,
    pub bookmark_source: Option<FsPath>,
}

/// Where the dragged files come from.
#[derive(Debug, Clone, PartialEq, Eq)]
pub enum FileDropOrigin {
    Internal(InternalFileDragSnapshot),
    External,
}

/// A drop session is hovering until the drop, then waits to be consumed.
#[derive(Debug, Clone, Copy, PartialEq, Eq, Structural)]
pub enum FileDropSessionPhase {
    Hovering,
    Dropped,
}

/// A request to measure the drop areas of one tab of one pane.
#[derive(Debug, Clone, Copy, PartialEq, Eq, Structural)]
pub struct FileDropLayoutRequest {
    pub identity: FileDropSessionIdentity,
    pub pane_id: BrowserPaneId,
    pub tab_id: usize,
    pub generation: u64,
}

/// The drop areas of a session: requested, or measured for a request.
#[derive(Debug, Clone, Copy, PartialEq, Eq, Structural)]
pub enum FileDropLayoutState {
    Pending(FileDropLayoutRequest),
    Ready(FileDropLayoutRequest),
}

/// The target fixed at the moment of the drop.
#[derive(Debug, Clone, PartialEq, Eq)]
pub enum FrozenFileDropTarget {
    Target(FileDropTarget),
    Rejected,
}

/// A pending hover over a tab that selects the tab when it lasts long enough.
#[derive(Debug, Clone, PartialEq, Eq)]
pub struct TabDropHover {
    pub identity: FileDropSessionIdentity,
    pub target: TabFileDropTarget,
    pub layout_generation: u64,
    pub hover_generation: u64,
    /// Milliseconds on the application's monotonic clock.
    pub started_at: u64,
}

/// A drag-and-drop session over the window.
#[derive(Debug, Clone, PartialEq, Eq)]
pub struct FileDropSessionState {
    pub identity: FileDropSessionIdentity,
    pub origin: FileDropOrigin,
    pub phase: FileDropSessionPhase,
    pub layout: FileDropLayoutState,
    /// The pointer position is known (the position itself is kept by the window layer).
    pub has_position: bool,
    pub hovered_target: Option<FileDropTarget>,
    pub tab_hover: Option<TabDropHover>,
    pub hover_generation: u64,
    pub pending_payload: Option<FileClipboardSelection>,
    pub frozen_drop_target: Option<FrozenFileDropTarget>,
}

/// The generation that follows `g`, wrapping at the top of the range.
pub open spec fn next_generation(g: u64) -> u64 {
    if g == u64::MAX {
        0
    } else {
        (g + 1) as u64
    }
}

/// The number after `g`, wrapping at the top of the range.
pub fn bump_generation(g: u64) -> (r: u64)
    ensures
        r == next_generation(g),
{
    g.wrapping_add(1)
}

/// The bookmark slot that a target is, if it is one.
pub open spec fn bookmark_slot_of(target: Option<FileDropTarget>) -> Option<SidebarBookmarkDropSlot> {
    match target {
        Some(FileDropTarget::SidebarBookmarkSlot(slot)) => Some(slot),
        _ => None,
    }
}

/// The request behind a layout, pending or measured.
pub open spec fn layout_request_of(layout: FileDropLayoutState) -> FileDropLayoutRequest {
    match layout {
        FileDropLayoutState::Pending(request) => request,
        FileDropLayoutState::Ready(request) => request,
    }
}

/// The request behind a layout, pending or measured.
pub fn file_drop_layout_request(layout: &FileDropLayoutState) -> (r: FileDropLayoutRequest)
    ensures
        r == layout_request_of(*layout),
{
    match layout {
        FileDropLayoutState::Pending(request) => *request,
        FileDropLayoutState::Ready(request) => *request,
    }
}

/// The directory an in-window drag offers as a bookmark, if any.
pub open spec fn bookmark_source_of(origin: FileDropOrigin) -> Option<PathModel> {
    match origin {
        FileDropOrigin::Internal(snapshot) => opt_path_view(snapshot.bookmark_source),
        FileDropOrigin::External => None,
    }
}

/// The directory an in-window drag offers as a bookmark, if any.
pub fn internal_bookmark_source(origin: &FileDropOrigin) -> (r: Option<&FsPath>)
    ensures
        match r {
            Some(p) => bookmark_source_of(*origin) == Some(p@),
            None => bookmark_source_of(*origin) is None,
        },
{
    match origin {
        FileDropOrigin::Internal(snapshot) => match &snapshot.bookmark_source {
            Some(p) => Some(p),
            None => None,
        },
        FileDropOrigin::External => None,
    }
}

/// How long a drag must rest on a tab before the tab is selected, in milliseconds.
pub const TAB_FILE_DROP_HOVER_DELAY_MS: u64 = 500;

/// A tab hover that started at `started_at` has lasted long enough at `now`
/// (milliseconds on one monotonic clock; a clock reading before the start counts as no time).
pub fn tab_file_drop_hover_delay_elapsed(started_at: u64, now: u64) -> (r: bool)
    ensures
        r == (now >= started_at && now - started_at >= TAB_FILE_DROP_HOVER_DELAY_MS),
{
    now.saturating_sub(started_at) >= TAB_FILE_DROP_HOVER_DELAY_MS
}

/// `after` and `r` are `before` once [`FileBrowser::begin_native_external_file_drop_session`] started the outside drop session of `identity`.
pub open spec fn external_session_begun(before: FileBrowser, after: FileBrowser, r: FileDropLayoutRequest, identity: FileDropSessionIdentity) -> bool {
    &&& (r == (FileDropLayoutRequest { 
        identity, 
        pane_id: before.active_pane(), 
        tab_id: before.active_tab_id, 
        generation: next_generation(before.file_drop_layout_generation), 
        }))
    &&& (after == (FileBrowser { 
        file_drop_layout_generation: r.generation, 
        hovered_entry: None, 
        hovered_sidebar: None, 
        sidebar_bookmark_drop_slot: None, 
        file_drop_session: Some(FileDropSessionState { 
        identity, 
        origin: FileDropOrigin::External, 
        phase: FileDropSessionPhase::Hovering, 
        layout: FileDropLayoutState::Pending(r), 
        has_position: true, 
        hovered_target: None, 
        tab_hover: None, 
        hover_generation: 0, 
        pending_payload: None, 
        frozen_drop_target: None, 
        }), 
        ..before 
        }))
}

/// `after` is `before` once the pointer of the drop session of `identity` left, as [`FileBrowser::leave_native_file_drop_session`] ends it.
pub open spec fn native_session_left(before: FileBrowser, after: FileBrowser, identity: FileDropSessionIdentity) -> bool {
    &&& ((before.file_drop_session matches Some(s) && s.identity == identity 
        && s.phase == FileDropSessionPhase::Hovering) ==> after == (FileBrowser { 
        file_drop_session: None, 
        hovered_entry: None, 
        hovered_sidebar: None, 
        sidebar_bookmark_drop_slot: None, 
        ..before 
        }))
    &&& (!(before.file_drop_session matches Some(s) && s.identity == identity 
        && s.phase == FileDropSessionPhase::Hovering) ==> after == before)
}

/// `after` and `r` are `before` once [`FileBrowser::refresh_hovered_target_from_ready_layout`] re-read the hovered target from `hit` at time `now`.
pub open spec fn hover_refreshed(before: FileBrowser, after: FileBrowser, hit: FileDropHit, now: u64, r: Option<TabDropHover>) -> bool {
    &&& (opt_path_view(after.hovered_entry) == before.refreshed_entry(hit))
    &&& (opt_path_view(after.hovered_sidebar) == before.refreshed_sidebar(hit))
    &&& (after == (FileBrowser { 
        hovered_entry: after.hovered_entry, 
        hovered_sidebar: after.hovered_sidebar, 
        sidebar_bookmark_drop_slot: after.sidebar_bookmark_drop_slot, 
        file_drop_session: after.file_drop_session, 
        ..before 
        }))
    &&& (after.sidebar_bookmark_drop_slot == match before.refreshed_target(hit) { 
        Some(DropTargetModel::SidebarBookmarkSlot(slot)) => Some(slot), 
        _ => None, 
        })
    &&& (before.file_drop_session is None ==> after.file_drop_session is None && r is None)
    &&& (before.file_drop_session matches Some(s) ==> { 
        let target = before.refreshed_target(hit); 
        let changed = s.phase == FileDropSessionPhase::Hovering && opt_target_view(s.hovered_target) != target; 
        &&& after.file_drop_session matches Some(f) 
        &&& f == (FileDropSessionState { 
        hover_generation: if changed { next_generation(s.hover_generation) } else { s.hover_generation }, 
        hovered_target: f.hovered_target, 
        tab_hover: f.tab_hover, 
        ..s 
        }) 
        &&& opt_target_view(f.hovered_target) == if changed { target } else { opt_target_view(s.hovered_target) } 
        &&& !changed ==> f.tab_hover == s.tab_hover && r is None 
        &&& changed ==> match target { 
        Some(DropTargetModel::Tab(t)) => if !(t.pane_id == before.active_pane() && t.tab_id == before.active_tab_id) 
        && before.selectable_tab(t) { 
        &&& r matches Some(h) 
        &&& h.identity == s.identity 
        &&& h.target@ == t 
        &&& h.layout_generation == layout_request_of(s.layout).generation 
        &&& h.hover_generation == next_generation(s.hover_generation) 
        &&& h.started_at == now 
        &&& f.tab_hover matches Some(stored) && same_hover(stored, h) 
        } else { 
        r is None && f.tab_hover is None 
        }, 
        _ => r is None && f.tab_hover is None, 
        } 
        })
}

/// `after` and `r` are `before` once [`FileBrowser::drop_native_file_drop_session`] took the drop of the session of `identity`.
pub open spec fn native_drop_made(before: FileBrowser, after: FileBrowser, identity: FileDropSessionIdentity, position_known: bool, hit: FileDropHit, r: FileDropAction) -> bool {
    &&& (!(before.file_drop_session matches Some(s) && s.identity == identity 
        && s.phase == FileDropSessionPhase::Hovering) ==> after == before 
        && r@ == FileDropActionModel::Nothing)
    &&& ((before.file_drop_session matches Some(s) && s.identity == identity 
        && s.phase == FileDropSessionPhase::Hovering) ==> { 
        &&& after.hovered_entry is None 
        &&& after.hovered_sidebar is None 
        &&& after.sidebar_bookmark_drop_slot is None 
        &&& after.file_drop_session matches Some(f) ==> { 
        &&& f.phase == FileDropSessionPhase::Dropped 
        &&& f.hovered_target is None 
        &&& f.tab_hover is None 
        &&& f.pending_payload == before.file_drop_session.unwrap().pending_payload 
        &&& f.has_position == position_known 
        &&& !position_known ==> f.frozen_drop_target == Some(FrozenFileDropTarget::Rejected) 
        } 
        &&& after.file_drop_session is None ==> before.file_drop_session.unwrap().pending_payload is Some 
        })
}

/// `after` and `r` are `before` once [`FileBrowser::cancel_file_drop_session`] ended the session of `identity`, if current.
pub open spec fn drop_session_cancelled(before: FileBrowser, after: FileBrowser, identity: FileDropSessionIdentity, r: bool) -> bool {
    &&& (r == (before.file_drop_session matches Some(s) && s.identity == identity))
    &&& (!r ==> after == before)
    &&& (r ==> after == (FileBrowser { 
        file_drop_session: None, 
        hovered_entry: None, 
        hovered_sidebar: None, 
        sidebar_bookmark_drop_slot: None, 
        cursor_paste_directory: if before.file_drop_session.unwrap().origin is Internal { 
        None 
        } else { 
        before.cursor_paste_directory 
        }, 
        ..before 
        }))
}

/// `after` and `r` are `before` once [`FileBrowser::begin_wayland_file_drop_session`] took a Wayland drag entering as target session `target_session_id`.
pub open spec fn wayland_session_begun(before: FileBrowser, after: FileBrowser, r: Option<FileDropLayoutRequest>, target_session_id: u64, internal_source: Option<u64>) -> bool {
    &&& (({ 
        let identity = FileDropSessionIdentity::Wayland(target_session_id); 
        let request = FileDropLayoutRequest { 
        identity, 
        pane_id: before.active_pane(), 
        tab_id: before.active_tab_id, 
        generation: next_generation(before.file_drop_layout_generation), 
        }; 
        let started = |origin: FileDropOrigin| FileBrowser { 
        file_drop_layout_generation: request.generation, 
        hovered_entry: None, 
        hovered_sidebar: None, 
        sidebar_bookmark_drop_slot: None, 
        file_drop_session: Some(FileDropSessionState { 
        identity, 
        origin, 
        phase: FileDropSessionPhase::Hovering, 
        layout: FileDropLayoutState::Pending(request), 
        has_position: true, 
        hovered_target: None, 
        tab_hover: None, 
        hover_generation: 0, 
        pending_payload: None, 
        frozen_drop_target: None, 
        }), 
        ..before 
        }; 
        match internal_source { 
        None => r == Some(request) && after == started(FileDropOrigin::External), 
        Some(source) => if before.file_drag matches Some(drag) && drag.dragging() 
        && drag.native_dnd.session_id_of() == Some(source) { 
        let drag = before.file_drag.unwrap(); 
        &&& r == Some(request) 
        &&& after.file_drop_session matches Some(session) && session.origin matches FileDropOrigin::Internal(snapshot) 
        && snapshot.source_session_id == Some(source) 
        && paths_view(snapshot.sources@) == paths_view(drag.sources@) 
        && opt_path_view(snapshot.bookmark_source) == opt_path_view(drag.bookmark_source) 
        && after == started(session.origin) 
        } else { 
        r is None && after == before 
        }, 
        } 
        }))
}

/// Pointing the drop session of `before` at `target` changes something: the
/// session hovers and its target is another one.
pub open spec fn drop_target_changes(before: FileBrowser, target: Option<FileDropTarget>) -> bool {
    before.file_drop_session matches Some(s) && s.phase == FileDropSessionPhase::Hovering
        && opt_target_view(s.hovered_target) != opt_target_view(target)
}

/// `after` is `before` once its drop session points at `target`, as
/// [`FileBrowser::set_file_drop_target`] does it: where that changes
/// something, a new hover generation starts, any pending tab hover is dropped
/// and the bookmark slot shows when the target is one; otherwise nothing moves.
pub open spec fn drop_target_set(before: FileBrowser, after: FileBrowser, target: Option<FileDropTarget>) -> bool {
    if drop_target_changes(before, target) {
        after == (FileBrowser {
            file_drop_session: Some(FileDropSessionState {
                hover_generation: next_generation(before.file_drop_session.unwrap().hover_generation),
                hovered_target: target,
                tab_hover: None,
                ..before.file_drop_session.unwrap()
            }),
            sidebar_bookmark_drop_slot: bookmark_slot_of(target),
            ..before
        })
    } else {
        after == before
    }
}

impl FileBrowser {
    /// Points a hovering drop session at `target`. Returns whether the
    /// hovered target changed; a change starts a new hover generation, drops
    /// any pending tab hover and shows the bookmark slot when the target is one.
    pub fn set_file_drop_target(&mut self, target: Option<FileDropTarget>) -> (changed: bool)
        ensures
            changed == drop_target_changes(*old(self), target),
            !changed ==> *final(self) == *old(self),
            changed ==> *final(self) == (FileBrowser {
                file_drop_session: Some(FileDropSessionState {
                    hover_generation: next_generation(old(self).file_drop_session.unwrap().hover_generation),
                    hovered_target: target,
                    tab_hover: None,
                    ..old(self).file_drop_session.unwrap()
                }),
                sidebar_bookmark_drop_slot: bookmark_slot_of(target),
                ..*old(self)
            }),
    {
        let slot = match &target {
            Some(FileDropTarget::SidebarBookmarkSlot(s)) => Some(*s),
            _ => None,
        };
        let mut session = match self.file_drop_session.take() {
            Some(session) => session,
            None => return false,
        };
        if session.phase != FileDropSessionPhase::Hovering || same_opt_target(&session.hovered_target, &target) {
            self.file_drop_session = Some(session);
            return false;
        }
        session.hover_generation = bump_generation(session.hover_generation);
        session.hovered_target = target;
        session.tab_hover = None;
        self.file_drop_session = Some(session);
        self.sidebar_bookmark_drop_slot = slot;
        true
    }

    /// Shows the bookmark slot when the target is one, and hides it otherwise.
    pub fn update_file_drop_visuals(&mut self, target: Option<&FileDropTarget>)
        ensures
            *final(self) == (FileBrowser {
                sidebar_bookmark_drop_slot: match target {
                    Some(FileDropTarget::SidebarBookmarkSlot(slot)) => Some(*slot),
                    _ => None,
                },
                ..*old(self)
            }),
    {
        self.sidebar_bookmark_drop_slot = match target {
            Some(FileDropTarget::SidebarBookmarkSlot(slot)) => Some(*slot),
            _ => None,
        };
    }

    /// Clears the hover highlights of a drop.
    pub fn clear_file_drop_visuals(&mut self)
        ensures
            *final(self) == (FileBrowser {
                hovered_entry: None,
                hovered_sidebar: None,
                sidebar_bookmark_drop_slot: None,
                ..*old(self)
            }),
    {
        self.hovered_entry = None;
        self.hovered_sidebar = None;
        self.sidebar_bookmark_drop_slot = None;
    }

    /// Clears the hover highlights of an in-window drop and its paste directory.
    pub fn clear_internal_file_drop_visuals(&mut self)
        ensures
            *final(self) == (FileBrowser {
                hovered_entry: None,
                hovered_sidebar: None,
                sidebar_bookmark_drop_slot: None,
                cursor_paste_directory: None,
                ..*old(self)
            }),
    {
        self.clear_file_drop_visuals();
        self.cursor_paste_directory = None;
    }

    /// Ends the drop session of `identity`, if it is the current one, and
    /// clears its highlights. Returns whether it was.
    pub fn cancel_file_drop_session(&mut self, identity: FileDropSessionIdentity) -> (r: bool)
        ensures
            drop_session_cancelled(*old(self), *final(self), identity, r),
    {
        let (matches, internal) = match &self.file_drop_session {
            Some(session) => (session.identity == identity, session.origin.is_internal()),
            None => (false, false),
        };
        if matches {
            self.file_drop_session = None;
            if internal {
                self.clear_internal_file_drop_visuals();
            } else {
                self.clear_file_drop_visuals();
            }
        }
        matches
    }

    /// The pointer left the window during the hovering drop session of `identity`.
    pub fn leave_native_file_drop_session(&mut self, identity: FileDropSessionIdentity)
        ensures
            native_session_left(*old(self), *final(self), identity),
    {
        let hovering = match &self.file_drop_session {
            Some(session) => session.identity == identity && session.phase == FileDropSessionPhase::Hovering,
            None => false,
        };
        if hovering {
            self.file_drop_session = None;
            self.clear_file_drop_visuals();
        }
    }

    /// Closing a tab ends any drop session, whose measured layout may be gone.
    pub fn invalidate_file_drop_for_tab_close(&mut self)
        ensures
            old(self).file_drop_session is None ==> *final(self) == *old(self),
            old(self).file_drop_session is Some ==> *final(self) == (FileBrowser {
                file_drop_session: None,
                hovered_entry: None,
                hovered_sidebar: None,
                sidebar_bookmark_drop_slot: None,
                cursor_paste_directory: if old(self).file_drop_session.unwrap().origin is Internal {
                    None
                } else {
                    old(self).cursor_paste_directory
                },
                ..*old(self)
            }),
    {
        let identity = match &self.file_drop_session {
            Some(session) => Some(session.identity),
            None => None,
        };
        if let Some(identity) = identity {
            self.cancel_file_drop_session(identity);
        }
    }

    /// Abandons the file drag and its drop session.
    pub fn cancel_file_drag_interaction(&mut self)
        ensures
            *final(self) == (FileBrowser {
                file_drag: None,
                file_drop_session: None,
                hovered_entry: None,
                hovered_sidebar: None,
                sidebar_bookmark_drop_slot: None,
                cursor_paste_directory: None,
                ..*old(self)
            }),
    {
        self.file_drag = None;
        self.file_drop_session = None;
        self.clear_internal_file_drop_visuals();
    }

    /// A new request to measure the drop areas of a tab, numbered after all earlier ones.
    pub fn next_file_drop_layout_request(
        &mut self,
        identity: FileDropSessionIdentity,
        pane_id: BrowserPaneId,
        tab_id: usize,
    ) -> (r: FileDropLayoutRequest)
        ensures
            r == (FileDropLayoutRequest {
                identity,
                pane_id,
                tab_id,
                generation: next_generation(old(self).file_drop_layout_generation),
            }),
            *final(self) == (FileBrowser { file_drop_layout_generation: r.generation, ..*old(self) }),
    {
        self.file_drop_layout_generation = bump_generation(self.file_drop_layout_generation);
        FileDropLayoutRequest { identity, pane_id, tab_id, generation: self.file_drop_layout_generation }
    }

    /// What an active in-window drag hands to its drop session; nothing
    /// before the press has become a drag.
    pub fn internal_file_drag_snapshot(&self) -> (r: Option<InternalFileDragSnapshot>)
        ensures
            r is Some == (self.file_drag matches Some(drag) && drag.dragging()),
            r matches Some(snapshot) ==> {
                &&& snapshot.source_session_id == self.file_drag.unwrap().native_dnd.session_id_of()
                &&& paths_view(snapshot.sources@) == paths_view(self.file_drag.unwrap().sources@)
                &&& opt_path_view(snapshot.bookmark_source) == opt_path_view(self.file_drag.unwrap().bookmark_source)
            },
    {
        match &self.file_drag {
            Some(drag) => {
                if !drag.is_dragging() {
                    return None;
                }
                Some(InternalFileDragSnapshot {
                    source_session_id: drag.native_dnd.session_id(),
                    sources: copy_paths(drag.sources.as_slice()),
                    bookmark_source: copy_opt_path(&drag.bookmark_source),
                })
            },
            None => None,
        }
    }

    /// Ends the X11 drop session, if one is running.
    pub fn cancel_x11_file_drop_session(&mut self)
        ensures
            (old(self).file_drop_session matches Some(s) && s.identity is X11) ==> *final(self) == (FileBrowser {
                file_drop_session: None,
                hovered_entry: None,
                hovered_sidebar: None,
                sidebar_bookmark_drop_slot: None,
                cursor_paste_directory: if old(self).file_drop_session.unwrap().origin is Internal {
                    None
                } else {
                    old(self).cursor_paste_directory
                },
                ..*old(self)
            }),
            !(old(self).file_drop_session matches Some(s) && s.identity is X11) ==> *final(self) == *old(self),
    {
        let identity = match &self.file_drop_session {
            Some(session) => match session.identity {
                FileDropSessionIdentity::X11(_) => Some(session.identity),
                _ => None,
            },
            None => None,
        };
        if let Some(identity) = identity {
            self.cancel_file_drop_session(identity);
        }
    }

    /// At the drop, fixes the target under the pointer in the measured layout:
    /// `hit` is what the pointer hits in that layout. Nothing is fixed while the
    /// pointer position is unknown or the layout is still being measured.
    pub fn freeze_file_drop_target_from_ready_layout(&mut self, hit: &FileDropHit)
        requires
            forall|k: int| 0 <= k < hit.sidebar_directories@.len() ==>
                (#[trigger] hit.sidebar_directories@[k]).favorite_index != Some(usize::MAX),
        ensures
            target_frozen(*old(self), *final(self), *hit),
    {
        let mut session = match self.file_drop_session.take() {
            Some(session) => session,
            None => return,
        };
        let ready = match session.layout {
            FileDropLayoutState::Ready(_) => true,
            FileDropLayoutState::Pending(_) => false,
        };
        if !session.has_position || !ready {
            self.file_drop_session = Some(session);
            return;
        }
        let resolved = resolve_file_drop_target(hit, internal_bookmark_source(&session.origin));
        session.frozen_drop_target = Some(match resolved {
            Some(target) => FrozenFileDropTarget::Target(target),
            None => FrozenFileDropTarget::Rejected,
        });
        self.file_drop_session = Some(session);
    }

    /// Starts the drop session of a drag coming from outside the window, with
    /// the pointer inside it. Returns the layout to measure.
    pub fn begin_native_external_file_drop_session(&mut self, identity: FileDropSessionIdentity) -> (r: FileDropLayoutRequest)
        ensures
            external_session_begun(*old(self), *final(self), r, identity),
    {
        self.clear_file_drop_visuals();
        let pane_id = self.active_pane_id();
        let tab_id = self.active_tab_id;
        let request = self.next_file_drop_layout_request(identity, pane_id, tab_id);
        self.file_drop_session = Some(FileDropSessionState {
            identity,
            origin: FileDropOrigin::External,
            phase: FileDropSessionPhase::Hovering,
            layout: FileDropLayoutState::Pending(request),
            has_position: true,
            hovered_target: None,
            tab_hover: None,
            hover_generation: 0,
            pending_payload: None,
            frozen_drop_target: None,
        });
        request
    }

    /// A Wayland drag entered the window as target session `target_session_id`.
    /// A drag from outside (`internal_source` is `None`) starts an outside
    /// drop session. A drag this window started, by its source session
    /// `internal_source`, starts a session carrying the drag's sources only
    /// while that drag is active and is the one with that source session;
    /// otherwise nothing changes. Returns the layout to measure, if a
    /// session started.
    pub fn begin_wayland_file_drop_session(&mut self, target_session_id: u64, internal_source: Option<u64>) -> (r: Option<FileDropLayoutRequest>)
        ensures
            wayland_session_begun(*old(self), *final(self), r, target_session_id, internal_source),
    {
        let identity = FileDropSessionIdentity::Wayland(target_session_id);
        let origin = match internal_source {
            None => {
                return Some(self.begin_native_external_file_drop_session(identity));
            },
            Some(source) => match &self.file_drag {
                Some(drag) => {
                    if !drag.is_dragging() {
                        return None;
                    }
                    match drag.native_dnd.session_id() {
                        Some(id) => {
                            if id != source {
                                return None;
                            }
                        },
                        None => {
                            return None;
                        },
                    }
                    FileDropOrigin::Internal(InternalFileDragSnapshot {
                        source_session_id: Some(source),
                        sources: copy_paths(drag.sources.as_slice()),
                        bookmark_source: copy_opt_path(&drag.bookmark_source),
                    })
                },
                None => {
                    return None;
                },
            },
        };
        self.clear_file_drop_visuals();
        let pane_id = self.active_pane_id();
        let tab_id = self.active_tab_id;
        let request = self.next_file_drop_layout_request(identity, pane_id, tab_id);
        self.file_drop_session = Some(FileDropSessionState {
            identity,
            origin,
            phase: FileDropSessionPhase::Hovering,
            layout: FileDropLayoutState::Pending(request),
            has_position: true,
            hovered_target: None,
            tab_hover: None,
            hover_generation: 0,
            pending_payload: None,
            frozen_drop_target: None,
        });
        Some(request)
    }

    /// The pointer of the hovering drop session of `identity` moved. Returns
    /// whether the session follows it (then its hovered target is refreshed).
    pub fn move_native_file_drop_session(&mut self, identity: FileDropSessionIdentity) -> (r: bool)
        ensures
            r == (old(self).file_drop_session matches Some(s) && s.identity == identity
                && s.phase == FileDropSessionPhase::Hovering),
            !r ==> *final(self) == *old(self),
            r ==> *final(self) == (FileBrowser {
                file_drop_session: Some(FileDropSessionState {
                    has_position: true,
                    ..old(self).file_drop_session.unwrap()
                }),
                ..*old(self)
            }),
    {
        let mut session = match self.file_drop_session.take() {
            Some(session) => session,
            None => return false,
        };
        if session.identity != identity || session.phase != FileDropSessionPhase::Hovering {
            self.file_drop_session = Some(session);
            return false;
        }
        session.has_position = true;
        self.file_drop_session = Some(session);
        true
    }
}

impl FileDropOrigin {
    /// The dragged files come from this window.
    pub fn is_internal(&self) -> (r: bool)
        ensures
            r == (*self is Internal),
    {
        match self {
            FileDropOrigin::Internal(_) => true,
            FileDropOrigin::External => false,
        }
    }
}

/// What a finished drop does.
#[derive(Debug, Clone, PartialEq, Eq)]
pub enum FileDropAction {
    Nothing,
    /// Move (or, by the held modifiers, copy or link) dragged files into a directory.
    MoveDraggedFiles { sources: Vec<FsPath>, directory: FsPath },
    /// Move the paths to the trash.
    TrashPaths { paths: Vec<FsPath> },
    /// Add the dragged directory to the bookmarks at a slot.
    InsertSidebarBookmark { slot: SidebarBookmarkDropSlot, source: FsPath },
    /// Ask whether outside files dropped on a directory are copied or moved.
    PromptForDrop { directory: FsPath, paths: Vec<FsPath> },
}

/// The meaning of a [`FileDropAction`].
pub enum FileDropActionModel {
    Nothing,
    MoveDraggedFiles { sources: Seq<PathModel>, directory: PathModel },
    TrashPaths { paths: Seq<PathModel> },
    InsertSidebarBookmark { slot: SidebarBookmarkDropSlot, source: PathModel },
    PromptForDrop { directory: PathModel, paths: Seq<PathModel> },
}

impl View for FileDropAction {
    type V = FileDropActionModel;

    open spec fn view(&self) -> FileDropActionModel {
        match self {
            FileDropAction::Nothing => FileDropActionModel::Nothing,
            FileDropAction::MoveDraggedFiles { sources, directory } =>
                FileDropActionModel::MoveDraggedFiles { sources: paths_view(sources@), directory: directory@ },
            FileDropAction::TrashPaths { paths } => FileDropActionModel::TrashPaths { paths: paths_view(paths@) },
            FileDropAction::InsertSidebarBookmark { slot, source } =>
                FileDropActionModel::InsertSidebarBookmark { slot: *slot, source: source@ },
            FileDropAction::PromptForDrop { directory, paths } =>
                FileDropActionModel::PromptForDrop { directory: directory@, paths: paths_view(paths@) },
        }
    }
}

/// The session has dropped, received its payload and fixed its target.
pub open spec fn ready_to_dispatch(s: FileDropSessionState) -> bool {
    s.phase == FileDropSessionPhase::Dropped && s.pending_payload is Some && s.frozen_drop_target is Some
}

impl FileBrowser {
    /// The tabs of a pane: the live list for the active pane, the stored one for another.
    pub open spec fn tabs_of_pane(&self, pane_id: BrowserPaneId) -> Seq<BrowserTab> {
        if pane_id == self.active_pane() {
            self.tabs@
        } else {
            match pane_position(self.panes@, pane_id) {
                Some(i) => self.panes@[i].tabs@,
                None => Seq::empty(),
            }
        }
    }

    /// A hovered tab can take the drop: it still exists, is not closing, and
    /// still offers the destination it offered when hovered.
    pub open spec fn selectable_tab(&self, target: TabTargetModel) -> bool {
        let tabs = self.tabs_of_pane(target.pane_id);
        match tab_position(tabs, target.tab_id) {
            Some(i) => !self.closing_tab(target.tab_id) && tab_drop_destination(tabs[i]) == target.destination,
            None => false,
        }
    }

    /// A hovered tab can take the drop: see [`FileBrowser::selectable_tab`].
    pub fn tab_file_drop_target_is_selectable(&self, target: &TabFileDropTarget) -> (r: bool)
        ensures
            r == self.selectable_tab(target@),
    {
        let position = if target.pane_id == self.active_pane_id() {
            match find_tab(&self.tabs, target.tab_id) {
                Some(i) => Some(self.tabs[i].file_drop_destination()),
                None => None,
            }
        } else {
            match find_pane(&self.panes, target.pane_id) {
                Some(p) => match find_tab(&self.panes[p].tabs, target.tab_id) {
                    Some(i) => Some(self.panes[p].tabs[i].file_drop_destination()),
                    None => None,
                },
                None => {
                    assert(self.tabs_of_pane(target.pane_id) =~= Seq::<BrowserTab>::empty());
                    None
                },
            }
        };
        match position {
            Some(destination) => !self.tab_is_closing(target.tab_id)
                && destination.same_destination(&target.destination),
            None => false,
        }
    }

    /// The hovered tab is already the active tab of the active pane.
    pub fn tab_file_drop_target_is_current(&self, target: &TabFileDropTarget) -> (r: bool)
        ensures
            r == (target.pane_id == self.active_pane() && target.tab_id == self.active_tab_id),
    {
        target.pane_id == self.active_pane_id() && target.tab_id == self.active_tab_id
    }

    /// A drop on a tab lands in the tab's destination while the tab can take
    /// it, and nowhere otherwise; other targets stand.
    pub open spec fn live_target(&self, target: DropTargetModel) -> Option<DropTargetModel> {
        match target {
            DropTargetModel::Tab(tab) => if self.selectable_tab(tab) {
                match tab.destination {
                    TabDestinationModel::Directory(d) => Some(DropTargetModel::Directory(d)),
                    TabDestinationModel::Trash => Some(DropTargetModel::Trash),
                }
            } else {
                None
            },
            other => Some(other),
        }
    }

    /// Where a drop on `target` lands now: see [`FileBrowser::live_target`].
    pub fn live_file_drop_target(&self, target: FileDropTarget) -> (r: Option<FileDropTarget>)
        ensures
            opt_target_view(r) == self.live_target(target@),
    {
        match target {
            FileDropTarget::Tab(tab_target) => {
                if self.tab_file_drop_target_is_selectable(&tab_target) {
                    Some(match tab_target.destination {
                        TabDropDestination::Directory(directory) => FileDropTarget::Directory(directory),
                        TabDropDestination::Trash => FileDropTarget::Trash,
                    })
                } else {
                    None
                }
            },
            other => Some(other),
        }
    }

    /// What a drop from `origin` of `paths` on `target` does: files dragged
    /// within the window move into a directory unless some source cannot, go to
    /// the trash, or become a bookmark; outside files dropped on a directory
    /// ask first, or go to the trash; anything else does nothing.
    pub open spec fn dispatched_drop(
        &self,
        origin: FileDropOrigin,
        target: Option<DropTargetModel>,
        paths: Seq<PathModel>,
    ) -> FileDropActionModel {
        let live = match target {
            Some(t) => self.live_target(t),
            None => None,
        };
        match (origin, live) {
            (FileDropOrigin::Internal(snapshot), Some(DropTargetModel::Directory(d))) =>
                if directory_target_needs_fallback(paths_view(snapshot.sources@), d) {
                    FileDropActionModel::Nothing
                } else {
                    FileDropActionModel::MoveDraggedFiles { sources: paths_view(snapshot.sources@), directory: d }
                },
            (FileDropOrigin::Internal(snapshot), Some(DropTargetModel::Trash)) =>
                FileDropActionModel::TrashPaths { paths: paths_view(snapshot.sources@) },
            (FileDropOrigin::Internal(snapshot), Some(DropTargetModel::SidebarBookmarkSlot(slot))) =>
                match snapshot.bookmark_source {
                    Some(source) => FileDropActionModel::InsertSidebarBookmark { slot, source: source@ },
                    None => FileDropActionModel::Nothing,
                },
            (FileDropOrigin::External, Some(DropTargetModel::Directory(d))) =>
                FileDropActionModel::PromptForDrop { directory: d, paths },
            (FileDropOrigin::External, Some(DropTargetModel::Trash)) =>
                FileDropActionModel::TrashPaths { paths },
            _ => FileDropActionModel::Nothing,
        }
    }

    /// What a drop does: see [`FileBrowser::dispatched_drop`].
    pub fn dispatch_file_drop(
        &self,
        origin: FileDropOrigin,
        target: Option<FileDropTarget>,
        paths: Vec<FsPath>,
    ) -> (r: FileDropAction)
        ensures
            r@ == self.dispatched_drop(origin, opt_target_view(target), paths_view(paths@)),
    {
        let live = match target {
            Some(target) => self.live_file_drop_target(target),
            None => None,
        };
        let target = match live {
            Some(target) => target,
            None => return FileDropAction::Nothing,
        };
        match (origin, target) {
            (FileDropOrigin::Internal(snapshot), FileDropTarget::Directory(directory)) => {
                match safe_file_drop_target(snapshot.sources.as_slice(), Some(FileDropTarget::Directory(directory))) {
                    Some(FileDropTarget::Directory(directory)) =>
                        FileDropAction::MoveDraggedFiles { sources: snapshot.sources, directory },
                    _ => FileDropAction::Nothing,
                }
            },
            (FileDropOrigin::Internal(snapshot), FileDropTarget::Trash) =>
                FileDropAction::TrashPaths { paths: snapshot.sources },
            (FileDropOrigin::Internal(snapshot), FileDropTarget::SidebarBookmarkSlot(slot)) =>
                match snapshot.bookmark_source {
                    Some(source) => FileDropAction::InsertSidebarBookmark { slot, source },
                    None => FileDropAction::Nothing,
                },
            (FileDropOrigin::External, FileDropTarget::Directory(directory)) =>
                FileDropAction::PromptForDrop { directory, paths },
            (FileDropOrigin::External, FileDropTarget::Trash) => FileDropAction::TrashPaths { paths },
            _ => FileDropAction::Nothing,
        }
    }

    /// What consuming a ready session does: its fixed target receives the
    /// payload; an in-window drop only goes ahead when the payload is the move
    /// of exactly the dragged files.
    pub open spec fn consumed_drop(&self, s: FileDropSessionState) -> FileDropActionModel {
        let target = match s.frozen_drop_target {
            Some(FrozenFileDropTarget::Target(t)) => Some(t@),
            _ => None,
        };
        let payload = s.pending_payload.unwrap();
        match s.origin {
            FileDropOrigin::Internal(snapshot) =>
                if payload.operation == FileClipboardOperation::Move
                    && paths_view(payload.paths@) == paths_view(snapshot.sources@) {
                    self.dispatched_drop(s.origin, target, paths_view(snapshot.sources@))
                } else {
                    FileDropActionModel::Nothing
                },
            FileDropOrigin::External => self.dispatched_drop(s.origin, target, paths_view(payload.paths@)),
        }
    }

    #[verifier::rlimit(60)]
    #[verifier::spinoff_prover]
    /// Once the session has dropped, holds its payload and has fixed its
    /// target, ends it and returns what the drop does.
    pub fn consume_ready_file_drop(&mut self) -> (r: FileDropAction)
        ensures
            drop_consumed(*old(self), *final(self), r),
    {
        let ready = match &self.file_drop_session {
            Some(session) => session.phase == FileDropSessionPhase::Dropped
                && session.pending_payload.is_some() && session.frozen_drop_target.is_some(),
            None => false,
        };
        if !ready {
            return FileDropAction::Nothing;
        }
        let ghost before = *self;
        let session = self.file_drop_session.take().unwrap();
        let internal = session.origin.is_internal();
        if internal {
            self.clear_internal_file_drop_visuals();
        } else {
            self.clear_file_drop_visuals();
        }
        proof {
            lemma_dispatch_reads_only_tabs(*self, before);
        }
        let payload = session.pending_payload.unwrap();
        let target = match session.frozen_drop_target {
            Some(FrozenFileDropTarget::Target(target)) => Some(target),
            _ => None,
        };
        let paths = match &session.origin {
            FileDropOrigin::Internal(snapshot) => {
                if payload.operation == FileClipboardOperation::Move
                    && same_paths(payload.paths.as_slice(), snapshot.sources.as_slice()) {
                    copy_paths(snapshot.sources.as_slice())
                } else {
                    return FileDropAction::Nothing;
                }
            },
            FileDropOrigin::External => payload.paths,
        };
        self.dispatch_file_drop(session.origin, target, paths)
    }
}

/// What a drop does depends only on the tabs, the panes, their layout and
/// the tab animations.
pub proof fn lemma_dispatch_reads_only_tabs(a: FileBrowser, b: FileBrowser)
    requires
        a.tabs == b.tabs,
        a.panes == b.panes,
        a.pane_layout == b.pane_layout,
        a.tab_animations == b.tab_animations,
    ensures
        forall|o: FileDropOrigin, t: Option<DropTargetModel>, p: Seq<PathModel>|
            #[trigger] a.dispatched_drop(o, t, p) == b.dispatched_drop(o, t, p),
        forall|s: FileDropSessionState| #[trigger] a.consumed_drop(s) == b.consumed_drop(s),
{
    assert forall|tab: TabTargetModel| #[trigger] a.selectable_tab(tab) == b.selectable_tab(tab) by {
        assert(a.tabs_of_pane(tab.pane_id) == b.tabs_of_pane(tab.pane_id));
        assert(a.closing_tab(tab.tab_id) == b.closing_tab(tab.tab_id));
    }
    assert forall|t: DropTargetModel| #[trigger] a.live_target(t) == b.live_target(t) by {
        match t {
            DropTargetModel::Tab(tab) => { assert(a.selectable_tab(tab) == b.selectable_tab(tab)); },
            _ => {},
        }
    }
    assert forall|o: FileDropOrigin, t: Option<DropTargetModel>, p: Seq<PathModel>|
        #[trigger] a.dispatched_drop(o, t, p) == b.dispatched_drop(o, t, p) by {
        match t {
            Some(t) => { assert(a.live_target(t) == b.live_target(t)); },
            None => {},
        }
    }
}

/// The last entry under the pointer that drops into `directory`.
pub open spec fn last_entry_hit(entries: Seq<EntryDropHit>, directory: PathModel) -> Option<PathModel>
    decreases entries.len(),
{
    if entries.len() == 0 {
        None
    } else if entries.last().directory@ == directory {
        Some(entries.last().path@)
    } else {
        last_entry_hit(entries.drop_last(), directory)
    }
}

/// The last sidebar row under the pointer that shows `directory`.
pub open spec fn last_sidebar_hit(rows: Seq<SidebarDirectoryHit>, directory: PathModel) -> Option<PathModel>
    decreases rows.len(),
{
    if rows.len() == 0 {
        None
    } else if rows.last().directory@ == directory {
        Some(rows.last().directory@)
    } else {
        last_sidebar_hit(rows.drop_last(), directory)
    }
}

/// Finds the last entry under the pointer that drops into `directory`.
fn find_last_entry_hit(entries: &Vec<EntryDropHit>, directory: &FsPath) -> (r: Option<FsPath>)
    ensures
        opt_path_view(r) == last_entry_hit(entries@, directory@),
{
    let mut i: usize = entries.len();
    assert(entries@.take(i as int) =~= entries@);
    while i > 0
        invariant
            i <= entries.len(),
            last_entry_hit(entries@, directory@) == last_entry_hit(entries@.take(i as int), directory@),
        decreases i,
    {
        proof {
            assert(entries@.take(i as int).drop_last() =~= entries@.take(i - 1));
            assert(entries@.take(i as int).last() == entries@[i - 1]);
        }
        if entries[i - 1].directory.same_path(directory) {
            return Some(entries[i - 1].path.copy());
        }
        i = i - 1;
    }
    proof {
        assert(entries@.take(0) =~= Seq::<EntryDropHit>::empty());
    }
    None
}

/// Finds the last sidebar row under the pointer that shows `directory`.
fn find_last_sidebar_hit(rows: &Vec<SidebarDirectoryHit>, directory: &FsPath) -> (r: Option<FsPath>)
    ensures
        opt_path_view(r) == last_sidebar_hit(rows@, directory@),
{
    let mut i: usize = rows.len();
    assert(rows@.take(i as int) =~= rows@);
    while i > 0
        invariant
            i <= rows.len(),
            last_sidebar_hit(rows@, directory@) == last_sidebar_hit(rows@.take(i as int), directory@),
        decreases i,
    {
        proof {
            assert(rows@.take(i as int).drop_last() =~= rows@.take(i - 1));
            assert(rows@.take(i as int).last() == rows@[i - 1]);
        }
        if rows[i - 1].directory.same_path(directory) {
            return Some(rows[i - 1].directory.copy());
        }
        i = i - 1;
    }
    proof {
        assert(rows@.take(0) =~= Seq::<SidebarDirectoryHit>::empty());
    }
    None
}

/// The sidebar favorite indices of a hit leave room for the slot after them.
pub open spec fn hit_is_well_formed(hit: FileDropHit) -> bool {
    forall|k: int| 0 <= k < hit.sidebar_directories@.len() ==>
        (#[trigger] hit.sidebar_directories@[k]).favorite_index != Some(usize::MAX)
}

impl FileBrowser {
    /// The target under the pointer in the measured layout of the session, if
    /// the session knows its pointer and has its layout.
    pub open spec fn refreshed_target(&self, hit: FileDropHit) -> Option<DropTargetModel> {
        match self.file_drop_session {
            Some(s) => if s.has_position && s.layout is Ready {
                resolved_drop_target(hit, bookmark_source_of(s.origin))
            } else {
                None
            },
            None => None,
        }
    }

    /// The entry highlighted under the pointer: the entry of a directory target.
    pub open spec fn refreshed_entry(&self, hit: FileDropHit) -> Option<PathModel> {
        match self.refreshed_target(hit) {
            Some(DropTargetModel::Directory(d)) => last_entry_hit(hit.entries@, d),
            _ => None,
        }
    }

    /// The sidebar row highlighted under the pointer: the row of a directory
    /// target, or the trash row for the trash.
    pub open spec fn refreshed_sidebar(&self, hit: FileDropHit) -> Option<PathModel> {
        match self.refreshed_target(hit) {
            Some(DropTargetModel::Directory(d)) => last_sidebar_hit(hit.sidebar_directories@, d),
            Some(DropTargetModel::Trash) => Some(trash_location()),
            _ => None,
        }
    }

    /// Starts timing a hover over `target` when selecting that tab would change
    /// something; returns the hover to report when the delay has passed.
    pub fn schedule_tab_file_drop_hover(&mut self, target: TabFileDropTarget, now: u64) -> (r: Option<TabDropHover>)
        ensures
            r is Some == (old(self).file_drop_session is Some
                && !(target.pane_id == old(self).active_pane() && target.tab_id == old(self).active_tab_id)
                && old(self).selectable_tab(target@)),
            r is None ==> *final(self) == *old(self),
            r matches Some(h) ==> {
                let s = old(self).file_drop_session.unwrap();
                &&& h == (TabDropHover {
                    identity: s.identity,
                    target,
                    layout_generation: layout_request_of(s.layout).generation,
                    hover_generation: s.hover_generation,
                    started_at: now,
                })
                &&& *final(self) == (FileBrowser { file_drop_session: final(self).file_drop_session, ..*old(self) })
                &&& final(self).file_drop_session matches Some(f)
                &&& f == (FileDropSessionState { tab_hover: f.tab_hover, ..s })
                &&& f.tab_hover matches Some(stored) && same_hover(stored, h)
            },
    {
        if self.tab_file_drop_target_is_current(&target) || !self.tab_file_drop_target_is_selectable(&target) {
            return None;
        }
        let mut session = match self.file_drop_session.take() {
            Some(session) => session,
            None => return None,
        };
        let hover = TabDropHover {
            identity: session.identity,
            target,
            layout_generation: file_drop_layout_request(&session.layout).generation,
            hover_generation: session.hover_generation,
            started_at: now,
        };
        session.tab_hover = Some(hover.clone_hover());
        self.file_drop_session = Some(session);
        Some(hover)
    }
}

/// Two hovers are the same, their targets compared by meaning.
pub open spec fn same_hover(a: TabDropHover, b: TabDropHover) -> bool {
    &&& a.identity == b.identity
    &&& a.target@ == b.target@
    &&& a.layout_generation == b.layout_generation
    &&& a.hover_generation == b.hover_generation
    &&& a.started_at == b.started_at
}

impl TabDropHover {
    /// A copy of this hover.
    pub fn clone_hover(&self) -> (r: TabDropHover)
        ensures
            same_hover(r, *self),
    {
        TabDropHover {
            identity: self.identity,
            target: self.target.clone_target(),
            layout_generation: self.layout_generation,
            hover_generation: self.hover_generation,
            started_at: self.started_at,
        }
    }
}

impl FileBrowser {
    /// The target under the pointer in the measured layout, with the entry
    /// and the sidebar row to highlight for it.
    fn refreshed_hover_of(&self, hit: &FileDropHit) -> (r: (Option<FileDropTarget>, Option<FsPath>, Option<FsPath>))
        requires
            hit_is_well_formed(*hit),
        ensures
            opt_target_view(r.0) == self.refreshed_target(*hit),
            opt_path_view(r.1) == self.refreshed_entry(*hit),
            opt_path_view(r.2) == self.refreshed_sidebar(*hit),
    {
        let resolved: Option<FileDropTarget> = match &self.file_drop_session {
            Some(session) => {
                let ready = match session.layout {
                    FileDropLayoutState::Ready(_) => true,
                    FileDropLayoutState::Pending(_) => false,
                };
                if session.has_position && ready {
                    resolve_file_drop_target(hit, internal_bookmark_source(&session.origin))
                } else {
                    None
                }
            },
            None => None,
        };
        let hovered_entry = match &resolved {
            Some(FileDropTarget::Directory(directory)) => find_last_entry_hit(&hit.entries, directory),
            _ => None,
        };
        let hovered_sidebar = match &resolved {
            Some(FileDropTarget::Directory(directory)) => find_last_sidebar_hit(&hit.sidebar_directories, directory),
            Some(FileDropTarget::Trash) => Some(trash_location_path()),
            _ => None,
        };
        (resolved, hovered_entry, hovered_sidebar)
    }

    /// Re-reads the target under the pointer from the measured layout: `hit`
    /// is what the pointer hits there. Highlights the entry or sidebar row of
    /// the target, points the session at it, and starts timing a hover when the
    /// target newly became a tab; returns that hover.
    #[verifier::rlimit(100)]
    #[verifier::spinoff_prover]
    pub fn refresh_hovered_target_from_ready_layout(&mut self, hit: &FileDropHit, now: u64) -> (r: Option<TabDropHover>)
        requires
            hit_is_well_formed(*hit),
        ensures
            opt_path_view(final(self).hovered_entry) == old(self).refreshed_entry(*hit),
            opt_path_view(final(self).hovered_sidebar) == old(self).refreshed_sidebar(*hit),
            *final(self) == (FileBrowser {
                hovered_entry: final(self).hovered_entry,
                hovered_sidebar: final(self).hovered_sidebar,
                sidebar_bookmark_drop_slot: final(self).sidebar_bookmark_drop_slot,
                file_drop_session: final(self).file_drop_session,
                ..*old(self)
            }),
            final(self).sidebar_bookmark_drop_slot == match old(self).refreshed_target(*hit) {
                Some(DropTargetModel::SidebarBookmarkSlot(slot)) => Some(slot),
                _ => None,
            },
            old(self).file_drop_session is None ==> final(self).file_drop_session is None && r is None,
            old(self).file_drop_session matches Some(s) ==> {
                let target = old(self).refreshed_target(*hit);
                let changed = s.phase == FileDropSessionPhase::Hovering && opt_target_view(s.hovered_target) != target;
                &&& final(self).file_drop_session matches Some(f)
                &&& f == (FileDropSessionState {
                    hover_generation: if changed { next_generation(s.hover_generation) } else { s.hover_generation },
                    hovered_target: f.hovered_target,
                    tab_hover: f.tab_hover,
                    ..s
                })
                &&& opt_target_view(f.hovered_target) == if changed { target } else { opt_target_view(s.hovered_target) }
                &&& !changed ==> f.tab_hover == s.tab_hover && r is None
                &&& changed ==> match target {
                    Some(DropTargetModel::Tab(t)) => if !(t.pane_id == old(self).active_pane() && t.tab_id == old(self).active_tab_id)
                        && old(self).selectable_tab(t) {
                        &&& r matches Some(h)
                        &&& h.identity == s.identity
                        &&& h.target@ == t
                        &&& h.layout_generation == layout_request_of(s.layout).generation
                        &&& h.hover_generation == next_generation(s.hover_generation)
                        &&& h.started_at == now
                        &&& f.tab_hover matches Some(stored) && same_hover(stored, h)
                    } else {
                        r is None && f.tab_hover is None
                    },
                    _ => r is None && f.tab_hover is None,
                }
            },
    {
        let ghost before = *self;
        let (resolved, hovered_entry, hovered_sidebar) = self.refreshed_hover_of(hit);
        self.hovered_entry = hovered_entry;
        self.hovered_sidebar = hovered_sidebar;
        let ghost mid = *self;
        let r = self.retarget_refreshed_session(resolved, now);
        proof {
            assert(mid.tabs == before.tabs && mid.panes == before.panes && mid.pane_layout == before.pane_layout
                && mid.tab_animations == before.tab_animations && mid.active_tab_id == before.active_tab_id);
            assert forall|t: TabTargetModel| #[trigger] mid.selectable_tab(t) == before.selectable_tab(t) by {
                assert(mid.tabs_of_pane(t.pane_id) == before.tabs_of_pane(t.pane_id));
                assert(mid.closing_tab(t.tab_id) == before.closing_tab(t.tab_id));
            }
        }
        r
    }

    /// Points the session at the re-read target `resolved` and shows the
    /// bookmark slot when the target is one; a target that newly became a
    /// tab starts timing a hover, which is returned.
    #[verifier::rlimit(60)]
    fn retarget_refreshed_session(&mut self, resolved: Option<FileDropTarget>, now: u64) -> (r: Option<TabDropHover>)
        ensures
            *final(self) == (FileBrowser {
                sidebar_bookmark_drop_slot: final(self).sidebar_bookmark_drop_slot,
                file_drop_session: final(self).file_drop_session,
                ..*old(self)
            }),
            final(self).sidebar_bookmark_drop_slot == match opt_target_view(resolved) {
                Some(DropTargetModel::SidebarBookmarkSlot(slot)) => Some(slot),
                _ => None,
            },
            old(self).file_drop_session is None ==> final(self).file_drop_session is None && r is None,
            old(self).file_drop_session matches Some(s) ==> {
                let target = opt_target_view(resolved);
                let changed = s.phase == FileDropSessionPhase::Hovering && opt_target_view(s.hovered_target) != target;
                &&& final(self).file_drop_session matches Some(f)
                &&& f == (FileDropSessionState {
                    hover_generation: if changed { next_generation(s.hover_generation) } else { s.hover_generation },
                    hovered_target: f.hovered_target,
                    tab_hover: f.tab_hover,
                    ..s
                })
                &&& opt_target_view(f.hovered_target) == if changed { target } else { opt_target_view(s.hovered_target) }
                &&& !changed ==> f.tab_hover == s.tab_hover && r is None
                &&& changed ==> match target {
                    Some(DropTargetModel::Tab(t)) => if !(t.pane_id == old(self).active_pane() && t.tab_id == old(self).active_tab_id)
                        && old(self).selectable_tab(t) {
                        &&& r matches Some(h)
                        &&& h.identity == s.identity
                        &&& h.target@ == t
                        &&& h.layout_generation == layout_request_of(s.layout).generation
                        &&& h.hover_generation == next_generation(s.hover_generation)
                        &&& h.started_at == now
                        &&& f.tab_hover matches Some(stored) && same_hover(stored, h)
                    } else {
                        r is None && f.tab_hover is None
                    },
                    _ => r is None && f.tab_hover is None,
                }
            },
    {
        let ghost before = *self;
        let tab_target = match &resolved {
            Some(FileDropTarget::Tab(tab)) => Some(tab.clone_target()),
            _ => None,
        };
        let visual_slot = match &resolved {
            Some(FileDropTarget::SidebarBookmarkSlot(slot)) => Some(*slot),
            _ => None,
        };
        let changed = self.set_file_drop_target(resolved);
        self.sidebar_bookmark_drop_slot = visual_slot;
        let ghost after_set = *self;
        proof {
            assert(after_set.tabs == before.tabs && after_set.panes == before.panes
                && after_set.pane_layout == before.pane_layout
                && after_set.tab_animations == before.tab_animations
                && after_set.active_tab_id == before.active_tab_id);
            assert forall|t: TabTargetModel| #[trigger] after_set.selectable_tab(t) == before.selectable_tab(t) by {
                assert(after_set.tabs_of_pane(t.pane_id) == before.tabs_of_pane(t.pane_id));
                assert(after_set.closing_tab(t.tab_id) == before.closing_tab(t.tab_id));
            }
        }
        match tab_target {
            Some(tab) => {
                if changed {
                    self.schedule_tab_file_drop_hover(tab, now)
                } else {
                    None
                }
            },
            None => None,
        }
    }
}

/// What the tab-hover timer leads to.
#[derive(Debug, Clone, PartialEq, Eq)]
pub enum TabHoverOutcome {
    /// The hover is stale, too short, or its tab cannot take the drop.
    Ignored,
    /// The hovered tab is already shown; the pending hover is dropped.
    AlreadyCurrent,
    /// Select the hovered tab and measure the drop areas it shows.
    SelectTab { pane_id: BrowserPaneId, tab_id: usize, measure: Option<FileDropLayoutRequest> },
}

/// `after` and `r` are `before` once the drop areas of tab `tab_id` of
/// pane `pane_id` are asked to be measured again, as
/// [`FileBrowser::request_file_drop_layout_measurement`] does it.
pub open spec fn layout_remeasured(
    before: FileBrowser,
    after: FileBrowser,
    r: Option<FileDropLayoutRequest>,
    pane_id: BrowserPaneId,
    tab_id: usize,
) -> bool {
    &&& r is Some == (before.file_drop_session matches Some(s) && s.frozen_drop_target is None)
    &&& r is None ==> after == before
    &&& r matches Some(request) ==> {
        let s = before.file_drop_session.unwrap();
        &&& request == (FileDropLayoutRequest {
            identity: s.identity,
            pane_id,
            tab_id,
            generation: next_generation(before.file_drop_layout_generation),
        })
        &&& if s.phase == FileDropSessionPhase::Hovering {
            after == (FileBrowser {
                file_drop_layout_generation: request.generation,
                file_drop_session: Some(FileDropSessionState {
                    layout: FileDropLayoutState::Pending(request),
                    hover_generation: next_generation(s.hover_generation),
                    hovered_target: None,
                    tab_hover: None,
                    ..s
                }),
                hovered_entry: None,
                hovered_sidebar: None,
                sidebar_bookmark_drop_slot: None,
                ..before
            })
        } else {
            after == (FileBrowser {
                file_drop_layout_generation: request.generation,
                file_drop_session: Some(FileDropSessionState {
                    layout: FileDropLayoutState::Pending(request),
                    ..s
                }),
                ..before
            })
        }
    }
}

impl FileBrowser {
    /// Asks for the drop areas of a tab to be measured again. The hovered
    /// target is forgotten until they are; a session whose target is already
    /// fixed is left alone. Returns the measurement to run.
    pub fn request_file_drop_layout_measurement(&mut self, pane_id: BrowserPaneId, tab_id: usize) -> (r: Option<FileDropLayoutRequest>)
        ensures
            layout_remeasured(*old(self), *final(self), r, pane_id, tab_id),
    {
        let (identity, phase) = match &self.file_drop_session {
            Some(session) => {
                if session.frozen_drop_target.is_some() {
                    return None;
                }
                (session.identity, session.phase)
            },
            None => return None,
        };
        let request = self.next_file_drop_layout_request(identity, pane_id, tab_id);
        let mut session = self.file_drop_session.take().unwrap();
        session.layout = FileDropLayoutState::Pending(request);
        if phase == FileDropSessionPhase::Hovering {
            session.hover_generation = bump_generation(session.hover_generation);
            session.hovered_target = None;
            session.tab_hover = None;
        }
        self.file_drop_session = Some(session);
        if phase == FileDropSessionPhase::Hovering {
            self.clear_file_drop_visuals();
        }
        Some(request)
    }

    /// Asks for the drop areas of the active tab to be measured again.
    pub fn remeasure_active_file_drop_layout(&mut self) -> (r: Option<FileDropLayoutRequest>)
        ensures
            layout_remeasured(*old(self), *final(self), r, old(self).active_pane(), old(self).active_tab_id),
    {
        let pane_id = self.active_pane_id();
        let tab_id = self.active_tab_id;
        self.request_file_drop_layout_measurement(pane_id, tab_id)
    }
}

/// `after` and `r` are `before` once its drop session points at the tab
/// `target`, as [`FileBrowser::set_file_drop_tab_target`] does it: the entry
/// and sidebar highlights and the bookmark slot go; a hovering session whose
/// target changes starts a new hover generation, and times a hover over the
/// tab (the one returned) when the tab is not the current one and can take
/// the drop.
pub open spec fn tab_targeted(
    before: FileBrowser,
    after: FileBrowser,
    target: TabFileDropTarget,
    now: u64,
    r: Option<TabDropHover>,
) -> bool {
    let changed = before.file_drop_session matches Some(s) && s.phase == FileDropSessionPhase::Hovering
        && opt_target_view(s.hovered_target) != Some(DropTargetModel::Tab(target@));
    &&& after == (FileBrowser {
        file_drop_session: after.file_drop_session,
        hovered_entry: None,
        hovered_sidebar: None,
        sidebar_bookmark_drop_slot: None,
        ..before
    })
    &&& !changed ==> after.file_drop_session == before.file_drop_session && r is None
    &&& changed ==> {
        let s = before.file_drop_session.unwrap();
        let hover = TabDropHover {
            identity: s.identity,
            target,
            layout_generation: layout_request_of(s.layout).generation,
            hover_generation: next_generation(s.hover_generation),
            started_at: now,
        };
        &&& after.file_drop_session matches Some(f)
        &&& f == (FileDropSessionState {
            hovered_target: f.hovered_target,
            tab_hover: f.tab_hover,
            hover_generation: next_generation(s.hover_generation),
            ..s
        })
        &&& opt_target_view(f.hovered_target) == Some(DropTargetModel::Tab(target@))
        &&& r is Some == (!(target.pane_id == before.active_pane() && target.tab_id == before.active_tab_id)
            && before.selectable_tab(target@))
        &&& r is None ==> f.tab_hover is None
        &&& r matches Some(h) ==> h == hover && (f.tab_hover matches Some(stored) && same_hover(stored, hover))
    }
}

impl FileBrowser {
    /// The in-window drag of `gesture_id` entered a tab.
    pub fn accept_tab_file_drop_entered(&mut self, gesture_id: u64, target: TabFileDropTarget, now: u64) -> (r: Option<TabDropHover>)
        ensures
            !(old(self).file_drop_session matches Some(s) && s.identity == FileDropSessionIdentity::Iced(gesture_id)
                && s.phase == FileDropSessionPhase::Hovering) ==> *final(self) == *old(self) && r is None,
            (old(self).file_drop_session matches Some(s) && s.identity == FileDropSessionIdentity::Iced(gesture_id)
                && s.phase == FileDropSessionPhase::Hovering) ==> tab_targeted(*old(self), *final(self), target, now, r),
    {
        let matching = match &self.file_drop_session {
            Some(session) => session.identity == FileDropSessionIdentity::Iced(gesture_id)
                && session.phase == FileDropSessionPhase::Hovering,
            None => false,
        };
        if !matching {
            return None;
        }
        self.set_file_drop_tab_target(target, now)
    }

    /// Points the session at a hovered tab and starts timing the hover when the
    /// tab is new.
    pub fn set_file_drop_tab_target(&mut self, target: TabFileDropTarget, now: u64) -> (r: Option<TabDropHover>)
        ensures
            tab_targeted(*old(self), *final(self), target, now, r),
    {
        let ghost before = *self;
        self.hovered_entry = None;
        self.hovered_sidebar = None;
        let copy = target.clone_target();
        let changed = self.set_file_drop_target(Some(FileDropTarget::Tab(copy)));
        self.sidebar_bookmark_drop_slot = None;
        let ghost mid = *self;
        assert(mid.tabs == before.tabs && mid.panes == before.panes && mid.pane_layout == before.pane_layout
            && mid.tab_animations == before.tab_animations);
        assert(mid.active_pane() == before.active_pane());
        assert(mid.selectable_tab(target@) == before.selectable_tab(target@));
        if changed {
            self.schedule_tab_file_drop_hover(target, now)
        } else {
            None
        }
    }

    /// The in-window drag of `gesture_id` left a tab it hovered: a session of
    /// that drag hovering that tab forgets its target.
    pub fn accept_tab_file_drop_exited(&mut self, gesture_id: u64, target: &TabFileDropTarget)
        ensures
            (old(self).file_drop_session matches Some(s) && s.identity == FileDropSessionIdentity::Iced(gesture_id)
                && opt_target_view(s.hovered_target) == Some(DropTargetModel::Tab(target@)))
                ==> drop_target_set(*old(self), *final(self), None),
            !(old(self).file_drop_session matches Some(s) && s.identity == FileDropSessionIdentity::Iced(gesture_id)
                && opt_target_view(s.hovered_target) == Some(DropTargetModel::Tab(target@))) ==> *final(self) == *old(self),
    {
        let matches = match &self.file_drop_session {
            Some(session) => {
                let hovered_tab = FileDropTarget::Tab(target.clone_target());
                session.identity == FileDropSessionIdentity::Iced(gesture_id)
                    && same_opt_target(&session.hovered_target, &Some(hovered_tab))
            },
            None => false,
        };
        if matches {
            self.set_file_drop_target(None);
        }
    }

    /// The in-window drag of `gesture_id` was released over the tab it hovers:
    /// the drag and its session end and the drop goes to the tab.
    pub fn accept_tab_file_drop_released(&mut self, gesture_id: u64, target: TabFileDropTarget) -> (r: FileDropAction)
        ensures
            ({
                &&& old(self).file_drop_session matches Some(s)
                &&& s.identity == FileDropSessionIdentity::Iced(gesture_id)
                &&& s.phase == FileDropSessionPhase::Hovering
                &&& opt_target_view(s.hovered_target) == Some(DropTargetModel::Tab(target@))
                &&& old(self).file_drag matches Some(d) && d.gesture_id == gesture_id
            }) ==> {
                let d = old(self).file_drag.unwrap();
                &&& *final(self) == (FileBrowser {
                    file_drag: None,
                    file_drop_session: None,
                    hovered_entry: None,
                    hovered_sidebar: None,
                    sidebar_bookmark_drop_slot: None,
                    cursor_paste_directory: None,
                    ..*old(self)
                })
                &&& r@ == old(self).dispatched_drop(
                    FileDropOrigin::Internal(InternalFileDragSnapshot {
                        source_session_id: None,
                        sources: d.sources,
                        bookmark_source: d.bookmark_source,
                    }),
                    Some(DropTargetModel::Tab(target@)),
                    paths_view(d.sources@),
                )
            },
            !({
                &&& old(self).file_drop_session matches Some(s)
                &&& s.identity == FileDropSessionIdentity::Iced(gesture_id)
                &&& s.phase == FileDropSessionPhase::Hovering
                &&& opt_target_view(s.hovered_target) == Some(DropTargetModel::Tab(target@))
                &&& old(self).file_drag matches Some(d) && d.gesture_id == gesture_id
            }) ==> *final(self) == *old(self) && r@ == FileDropActionModel::Nothing,
    {
        let session_matches = match &self.file_drop_session {
            Some(session) => {
                let hovered_tab = FileDropTarget::Tab(target.clone_target());
                session.identity == FileDropSessionIdentity::Iced(gesture_id)
                    && session.phase == FileDropSessionPhase::Hovering
                    && same_opt_target(&session.hovered_target, &Some(hovered_tab))
            },
            None => false,
        };
        let source_matches = match &self.file_drag {
            Some(drag) => drag.gesture_id == gesture_id,
            None => false,
        };
        if !session_matches || !source_matches {
            return FileDropAction::Nothing;
        }
        let ghost before = *self;
        let drag = self.file_drag.take().unwrap();
        self.file_drop_session = None;
        self.clear_internal_file_drop_visuals();
        proof {
            lemma_dispatch_reads_only_tabs(*self, before);
        }
        let paths = copy_paths(drag.sources.as_slice());
        self.dispatch_file_drop(
            FileDropOrigin::Internal(InternalFileDragSnapshot {
                source_session_id: None,
                sources: drag.sources,
                bookmark_source: drag.bookmark_source,
            }),
            Some(FileDropTarget::Tab(target)),
            paths,
        )
    }

    /// The hover over a tab has lasted: a current, still selectable hover
    /// selects its tab (measuring the drop areas afresh), unless the tab is
    /// already shown. `now` is the clock reading when the timer fired.
    pub fn accept_tab_hover_elapsed(&mut self, hover: &TabDropHover, now: u64) -> (r: TabHoverOutcome)
        ensures
            ({
                &&& now >= hover.started_at && now - hover.started_at >= TAB_FILE_DROP_HOVER_DELAY_MS
                &&& old(self).file_drop_session matches Some(s)
                &&& s.identity == hover.identity
                &&& s.phase == FileDropSessionPhase::Hovering
                &&& s.tab_hover matches Some(pending) && same_hover(pending, *hover)
                &&& opt_target_view(s.hovered_target) == Some(DropTargetModel::Tab(hover.target@))
                &&& layout_request_of(s.layout).generation == hover.layout_generation
                &&& old(self).selectable_tab(hover.target@)
            }) == !(r is Ignored),
            r is Ignored ==> *final(self) == *old(self),
            r is AlreadyCurrent ==> hover.target.pane_id == old(self).active_pane()
                && hover.target.tab_id == old(self).active_tab_id
                && *final(self) == (FileBrowser {
                    file_drop_session: Some(FileDropSessionState { tab_hover: None, ..old(self).file_drop_session.unwrap() }),
                    ..*old(self)
                }),
            r matches TabHoverOutcome::SelectTab { pane_id, tab_id, measure } ==> {
                &&& !(hover.target.pane_id == old(self).active_pane() && hover.target.tab_id == old(self).active_tab_id)
                &&& pane_id == hover.target.pane_id
                &&& tab_id == hover.target.tab_id
                &&& layout_remeasured(*old(self), *final(self), measure, pane_id, tab_id)
            },
    {
        if !tab_file_drop_hover_delay_elapsed(hover.started_at, now) {
            return TabHoverOutcome::Ignored;
        }
        let hover_matches = match &self.file_drop_session {
            Some(session) => {
                let pending_matches = match &session.tab_hover {
                    Some(pending) => pending.same_as(hover),
                    None => false,
                };
                let hovered_tab = FileDropTarget::Tab(hover.target.clone_target());
                session.identity == hover.identity
                    && session.phase == FileDropSessionPhase::Hovering
                    && pending_matches
                    && same_opt_target(&session.hovered_target, &Some(hovered_tab))
                    && file_drop_layout_request(&session.layout).generation == hover.layout_generation
            },
            None => false,
        };
        if !hover_matches || !self.tab_file_drop_target_is_selectable(&hover.target) {
            return TabHoverOutcome::Ignored;
        }
        if self.tab_file_drop_target_is_current(&hover.target) {
            let mut session = self.file_drop_session.take().unwrap();
            session.tab_hover = None;
            self.file_drop_session = Some(session);
            return TabHoverOutcome::AlreadyCurrent;
        }
        let measure = self.request_file_drop_layout_measurement(hover.target.pane_id, hover.target.tab_id);
        TabHoverOutcome::SelectTab { pane_id: hover.target.pane_id, tab_id: hover.target.tab_id, measure }
    }
}

impl TabDropHover {
    /// The two hovers are the same.
    pub fn same_as(&self, other: &TabDropHover) -> (r: bool)
        ensures
            r == same_hover(*self, *other),
    {
        self.identity == other.identity
            && self.target.same_target(&other.target)
            && self.layout_generation == other.layout_generation
            && self.hover_generation == other.hover_generation
            && self.started_at == other.started_at
    }
}

/// What a measured layout leads to.
#[derive(Debug, Clone, PartialEq, Eq)]
pub enum DropLayoutOutcome {
    /// The measurement is stale.
    Ignored,
    /// The measured tab is no longer shown; the session ended.
    Cancelled,
    /// The hovering session re-read its target; a tab hover to time, if any.
    Refreshed(Option<TabDropHover>),
    /// The dropped session fixed its target; what the drop does.
    Dispatched(FileDropAction),
}

/// A drag-and-drop event from the X11 desktop, with whether its pointer
/// position could be converted to window coordinates.
#[derive(Debug, Clone, Copy, PartialEq, Eq, Structural)]
pub enum X11DropEvent {
    Entered { session_id: u64, position_known: bool },
    Moved { session_id: u64, position_known: bool },
    Left { session_id: u64 },
    Dropped { session_id: u64, position_known: bool },
}

/// A Wayland drag-and-drop event over the window, as the window reads it:
/// an entering drag says whether it is this window's own, by its source
/// session; a drop says whether its point is known.
#[derive(Debug, Clone, Copy, PartialEq, Eq, Structural)]
pub enum WaylandDropEvent {
    Entered { session_id: u64, internal_source: Option<u64> },
    Moved { session_id: u64 },
    Left { session_id: u64 },
    Dropped { session_id: u64, position_known: bool },
}

/// What an X11 or Wayland drag-and-drop event leads to.
#[derive(Debug, Clone, PartialEq, Eq)]
pub enum X11DropOutcome {
    Nothing,
    /// A session began; measure its drop areas.
    Measure(FileDropLayoutRequest),
    /// The session re-read its target; a tab hover to time, if any.
    Refreshed(Option<TabDropHover>),
    /// The session dropped; what the drop does.
    Dropped(FileDropAction),
}

/// `after` and `r` are `before` once the files `selection` of an outside
/// drop arrived for the session of `identity`, as
/// [`FileBrowser::accept_external_file_drop_payload`] takes them: only an
/// outside session of that identity holds them, and it is consumed once ready.
pub open spec fn external_payload_taken(
    before: FileBrowser,
    after: FileBrowser,
    r: FileDropAction,
    identity: FileDropSessionIdentity,
    selection: FileClipboardSelection,
) -> bool {
    &&& !(before.file_drop_session matches Some(s) && s.identity == identity && s.origin is External)
        ==> after == before && r@ == FileDropActionModel::Nothing
    &&& (before.file_drop_session matches Some(s) && s.identity == identity && s.origin is External) ==> {
        let s = FileDropSessionState { pending_payload: Some(selection), ..before.file_drop_session.unwrap() };
        &&& ready_to_dispatch(s) ==> after.file_drop_session is None && r@ == before.consumed_drop(s)
        &&& !ready_to_dispatch(s) ==> after.file_drop_session == Some(s) && r@ == FileDropActionModel::Nothing
    }
}

/// `after` is `before` once [`FileBrowser::freeze_file_drop_target_from_ready_layout`]
/// fixed the target of its drop session from `hit`: a session that knows its
/// pointer position and has a measured layout fixes the target resolved there,
/// or the refusal when none is; any other state stays as it is.
pub open spec fn target_frozen(before: FileBrowser, after: FileBrowser, hit: FileDropHit) -> bool {
    &&& !(before.file_drop_session matches Some(s) && s.has_position && s.layout is Ready) ==> after == before
    &&& (before.file_drop_session matches Some(s) && s.has_position && s.layout is Ready) ==> {
        let s = before.file_drop_session.unwrap();
        &&& after == (FileBrowser { file_drop_session: after.file_drop_session, ..before })
        &&& after.file_drop_session matches Some(f) && f == (FileDropSessionState {
            frozen_drop_target: f.frozen_drop_target,
            ..s
        })
        &&& match after.file_drop_session.unwrap().frozen_drop_target {
            Some(FrozenFileDropTarget::Target(t)) => resolved_drop_target(hit, bookmark_source_of(s.origin)) == Some(t@),
            Some(FrozenFileDropTarget::Rejected) => resolved_drop_target(hit, bookmark_source_of(s.origin)) is None,
            None => false,
        }
    }
}

/// `after` and `r` are `before` once [`FileBrowser::consume_ready_file_drop`]
/// ran: a dropped session that holds its payload and has fixed its target
/// ends, with its highlights, and the drop is made; otherwise nothing happens.
pub open spec fn drop_consumed(before: FileBrowser, after: FileBrowser, r: FileDropAction) -> bool {
    &&& !(before.file_drop_session matches Some(s) && ready_to_dispatch(s)) ==> {
        &&& after == before
        &&& r@ == FileDropActionModel::Nothing
    }
    &&& (before.file_drop_session matches Some(s) && ready_to_dispatch(s)) ==> {
        let s = before.file_drop_session.unwrap();
        &&& after == (FileBrowser {
            file_drop_session: None,
            hovered_entry: None,
            hovered_sidebar: None,
            sidebar_bookmark_drop_slot: None,
            cursor_paste_directory: if s.origin is Internal { None } else { before.cursor_paste_directory },
            ..before
        })
        &&& r@ == before.consumed_drop(s)
    }
}

impl FileBrowser {
    /// A measurement of drop areas arrived; `hit` is what the session's
    /// pointer hits in them. A measurement of the tab on show makes the layout
    /// ready: a hovering session re-reads its target, a dropped one fixes its
    /// target and makes the drop. A measurement of a tab no longer on show
    /// ends the session.
    pub fn accept_drop_layout(&mut self, request: FileDropLayoutRequest, hit: &FileDropHit, now: u64) -> (r: DropLayoutOutcome)
        requires
            hit_is_well_formed(*hit),
        ensures
            !(old(self).file_drop_session matches Some(s) && s.layout == FileDropLayoutState::Pending(request))
                ==> r is Ignored && *final(self) == *old(self),
            (old(self).file_drop_session matches Some(s) && s.layout == FileDropLayoutState::Pending(request)
                && (old(self).active_pane() != request.pane_id || old(self).active_tab_id != request.tab_id)) ==> {
                &&& r is Cancelled
                &&& drop_session_cancelled(*old(self), *final(self), request.identity,
                    old(self).file_drop_session.unwrap().identity == request.identity)
            },
            (old(self).file_drop_session matches Some(s) && s.layout == FileDropLayoutState::Pending(request)
                && old(self).active_pane() == request.pane_id && old(self).active_tab_id == request.tab_id) ==> {
                let s = old(self).file_drop_session.unwrap();
                let ready = FileBrowser {
                    file_drop_session: Some(FileDropSessionState { layout: FileDropLayoutState::Ready(request), ..s }),
                    ..*old(self)
                };
                &&& s.phase == FileDropSessionPhase::Hovering ==>
                    (r matches DropLayoutOutcome::Refreshed(h) && hover_refreshed(ready, *final(self), *hit, now, h))
                &&& s.phase == FileDropSessionPhase::Dropped ==> (r matches DropLayoutOutcome::Dispatched(action)
                    && exists|frozen: FileBrowser| #[trigger] target_frozen(ready, frozen, *hit)
                        && drop_consumed(frozen, *final(self), action))
            },
    {
        let request_matches = match &self.file_drop_session {
            Some(session) => session.layout == FileDropLayoutState::Pending(request),
            None => false,
        };
        if !request_matches {
            return DropLayoutOutcome::Ignored;
        }
        if self.active_pane_id() != request.pane_id || self.active_tab_id != request.tab_id {
            self.cancel_file_drop_session(request.identity);
            return DropLayoutOutcome::Cancelled;
        }
        let mut session = self.file_drop_session.take().unwrap();
        session.layout = FileDropLayoutState::Ready(request);
        let phase = session.phase;
        self.file_drop_session = Some(session);
        match phase {
            FileDropSessionPhase::Hovering => DropLayoutOutcome::Refreshed(
                self.refresh_hovered_target_from_ready_layout(hit, now),
            ),
            FileDropSessionPhase::Dropped => {
                let ghost ready = *self;
                self.freeze_file_drop_target_from_ready_layout(hit);
                let ghost frozen = *self;
                let action = self.consume_ready_file_drop();
                assert(target_frozen(ready, frozen, *hit) && drop_consumed(frozen, *self, action));
                DropLayoutOutcome::Dispatched(action)
            },
        }
    }

    /// The desktop reports the drop of the session of `identity`; `hit` is
    /// what the pointer hits in the measured layout when `position_known`.
    /// A drop without a usable position is refused.
    pub fn drop_native_file_drop_session(
        &mut self,
        identity: FileDropSessionIdentity,
        position_known: bool,
        hit: &FileDropHit,
    ) -> (r: FileDropAction)
        requires
            hit_is_well_formed(*hit),
        ensures
            native_drop_made(*old(self), *final(self), identity, position_known, *hit, r),
    {
        let mut session = match self.file_drop_session.take() {
            Some(session) => session,
            None => return FileDropAction::Nothing,
        };
        if session.identity != identity || session.phase != FileDropSessionPhase::Hovering {
            self.file_drop_session = Some(session);
            return FileDropAction::Nothing;
        }
        session.phase = FileDropSessionPhase::Dropped;
        session.hovered_target = None;
        session.tab_hover = None;
        if position_known {
            session.has_position = true;
        } else {
            session.has_position = false;
            session.frozen_drop_target = Some(FrozenFileDropTarget::Rejected);
        }
        self.file_drop_session = Some(session);
        self.freeze_file_drop_target_from_ready_layout(hit);
        self.clear_file_drop_visuals();
        self.consume_ready_file_drop()
    }

    /// The files of an outside drop arrived for the session of `identity`.
    pub fn accept_external_file_drop_payload(
        &mut self,
        identity: FileDropSessionIdentity,
        selection: FileClipboardSelection,
    ) -> (r: FileDropAction)
        ensures
            external_payload_taken(*old(self), *final(self), r, identity, selection),
    {
        let matches = match &self.file_drop_session {
            Some(session) => session.identity == identity && !session.origin.is_internal(),
            None => false,
        };
        if !matches {
            return FileDropAction::Nothing;
        }
        let ghost before = *self;
        let mut session = self.file_drop_session.take().unwrap();
        session.pending_payload = Some(selection);
        self.file_drop_session = Some(session);
        proof {
            lemma_dispatch_reads_only_tabs(*self, before);
        }
        self.consume_ready_file_drop()
    }

    /// The files of a Wayland drop arrived for target session
    /// `target_session_id`: from outside (`internal_source` is `None`) as
    /// [`FileBrowser::accept_external_file_drop_payload`] takes them; from
    /// this window's own drag of desktop session `internal_source`, only into
    /// the session that carries that drag, which then holds them and is
    /// consumed once ready.
    pub fn accept_wayland_file_drop(
        &mut self,
        target_session_id: u64,
        internal_source: Option<u64>,
        selection: FileClipboardSelection,
    ) -> (r: FileDropAction)
        ensures
            ({
                let identity = FileDropSessionIdentity::Wayland(target_session_id);
                let accepts = match internal_source {
                    None => old(self).file_drop_session matches Some(s) && (s.identity == identity && s.origin is External),
                    Some(source) => old(self).file_drop_session matches Some(s) && (s.identity == identity
                        && (s.origin matches FileDropOrigin::Internal(snapshot) && snapshot.source_session_id == Some(source))),
                };
                &&& !accepts ==> *final(self) == *old(self) && r@ == FileDropActionModel::Nothing
                &&& accepts ==> {
                    let s = FileDropSessionState { pending_payload: Some(selection), ..old(self).file_drop_session.unwrap() };
                    &&& ready_to_dispatch(s) ==> final(self).file_drop_session is None && r@ == old(self).consumed_drop(s)
                    &&& !ready_to_dispatch(s) ==> final(self).file_drop_session == Some(s) && r@ == FileDropActionModel::Nothing
                }
            }),
    {
        let identity = FileDropSessionIdentity::Wayland(target_session_id);
        let source = match internal_source {
            None => {
                return self.accept_external_file_drop_payload(identity, selection);
            },
            Some(source) => source,
        };
        let matches = match &self.file_drop_session {
            Some(session) => session.identity == identity && match &session.origin {
                FileDropOrigin::Internal(snapshot) => snapshot.source_session_id == Some(source),
                FileDropOrigin::External => false,
            },
            None => false,
        };
        if !matches {
            return FileDropAction::Nothing;
        }
        let ghost before = *self;
        let mut session = self.file_drop_session.take().unwrap();
        session.pending_payload = Some(selection);
        self.file_drop_session = Some(session);
        proof {
            lemma_dispatch_reads_only_tabs(*self, before);
        }
        self.consume_ready_file_drop()
    }

    /// The files of an X11 drop arrived for target session
    /// `target_session_id`; X11 offers them to be copied.
    pub fn accept_x11_file_drop(&mut self, target_session_id: u64, paths: Vec<FsPath>) -> (r: FileDropAction)
        ensures
            external_payload_taken(
                *old(self),
                *final(self),
                r,
                FileDropSessionIdentity::X11(target_session_id),
                FileClipboardSelection { operation: FileClipboardOperation::Copy, paths },
            ),
    {
        self.accept_external_file_drop_payload(
            FileDropSessionIdentity::X11(target_session_id),
            FileClipboardSelection { operation: FileClipboardOperation::Copy, paths },
        )
    }

    /// The desktop failed the drop of the session of `identity`, saying
    /// `details`. Returns whether that session was current; then it ends as
    /// [`FileBrowser::cancel_file_drop_session`] ends it and `details` is shown.
    pub fn accept_native_file_drop_failure(&mut self, identity: FileDropSessionIdentity, details: String) -> (r: bool)
        ensures
            r == (old(self).file_drop_session matches Some(s) && s.identity == identity),
            !r ==> *final(self) == *old(self),
            r ==> *final(self) == (FileBrowser {
                file_drop_session: None,
                hovered_entry: None,
                hovered_sidebar: None,
                sidebar_bookmark_drop_slot: None,
                cursor_paste_directory: if old(self).file_drop_session.unwrap().origin is Internal {
                    None
                } else {
                    old(self).cursor_paste_directory
                },
                error: Some(details),
                ..*old(self)
            }),
    {
        if !self.cancel_file_drop_session(identity) {
            return false;
        }
        self.error = Some(details);
        true
    }

    /// The window scale changed: an X11 session's positions no longer hold. A
    /// dropped session ends; a hovering one forgets its pointer and targets and
    /// has its drop areas measured again.
    pub fn invalidate_x11_file_drop_for_scale_change(&mut self) -> (r: Option<FileDropLayoutRequest>)
        ensures
            !(old(self).file_drop_session matches Some(s) && s.identity is X11) ==> *final(self) == *old(self) && r is None,
            (old(self).file_drop_session matches Some(s) && s.identity is X11
                && s.phase == FileDropSessionPhase::Dropped) ==> r is None && drop_session_cancelled(
                *old(self),
                *final(self),
                old(self).file_drop_session.unwrap().identity,
                true,
            ),
            (old(self).file_drop_session matches Some(s) && s.identity is X11
                && s.phase == FileDropSessionPhase::Hovering) ==> {
                let s = old(self).file_drop_session.unwrap();
                let reset = FileBrowser {
                    file_drop_session: Some(FileDropSessionState {
                        has_position: false,
                        hovered_target: None,
                        tab_hover: None,
                        frozen_drop_target: None,
                        ..s
                    }),
                    ..*old(self)
                };
                &&& layout_remeasured(reset, *final(self), r, old(self).active_pane(), old(self).active_tab_id)
                &&& r == Some(FileDropLayoutRequest {
                    identity: s.identity,
                    pane_id: old(self).active_pane(),
                    tab_id: old(self).active_tab_id,
                    generation: next_generation(old(self).file_drop_layout_generation),
                })
            },
    {
        let (identity, phase) = match &self.file_drop_session {
            Some(session) => match session.identity {
                FileDropSessionIdentity::X11(_) => (session.identity, session.phase),
                _ => return None,
            },
            None => return None,
        };
        if phase == FileDropSessionPhase::Dropped {
            self.cancel_file_drop_session(identity);
            return None;
        }
        let mut session = self.file_drop_session.take().unwrap();
        session.has_position = false;
        session.hovered_target = None;
        session.tab_hover = None;
        session.frozen_drop_target = None;
        self.file_drop_session = Some(session);
        let pane_id = self.active_pane_id();
        let tab_id = self.active_tab_id;
        self.request_file_drop_layout_measurement(pane_id, tab_id)
    }

    /// Routes an X11 drag-and-drop event to the drop session; `hit` is what the
    /// event's pointer hits in the measured layout.
    pub fn accept_x11_target_event(&mut self, event: X11DropEvent, hit: &FileDropHit, now: u64) -> (r: X11DropOutcome)
        requires
            hit_is_well_formed(*hit),
        ensures
            match event {
                X11DropEvent::Entered { session_id, position_known } => if position_known {
                    r matches X11DropOutcome::Measure(request) && external_session_begun(
                        *old(self),
                        *final(self),
                        request,
                        FileDropSessionIdentity::X11(session_id),
                    )
                } else {
                    r is Nothing && *final(self) == *old(self)
                },
                X11DropEvent::Moved { session_id, position_known } =>
                    if position_known && (old(self).file_drop_session matches Some(s)
                        && s.identity == FileDropSessionIdentity::X11(session_id)
                        && s.phase == FileDropSessionPhase::Hovering) {
                        r matches X11DropOutcome::Refreshed(h) && hover_refreshed(
                            FileBrowser {
                                file_drop_session: Some(FileDropSessionState {
                                    has_position: true,
                                    ..old(self).file_drop_session.unwrap()
                                }),
                                ..*old(self)
                            },
                            *final(self),
                            *hit,
                            now,
                            h,
                        )
                    } else {
                        r is Nothing && *final(self) == *old(self)
                    },
                X11DropEvent::Left { session_id } => r is Nothing && native_session_left(
                    *old(self),
                    *final(self),
                    FileDropSessionIdentity::X11(session_id),
                ),
                X11DropEvent::Dropped { session_id, position_known } => if position_known {
                    r matches X11DropOutcome::Dropped(action) && native_drop_made(
                        *old(self),
                        *final(self),
                        FileDropSessionIdentity::X11(session_id),
                        true,
                        *hit,
                        action,
                    )
                } else {
                    r is Nothing && drop_session_cancelled(
                        *old(self),
                        *final(self),
                        FileDropSessionIdentity::X11(session_id),
                        old(self).file_drop_session matches Some(s) && s.identity == FileDropSessionIdentity::X11(session_id),
                    )
                },
            },
    {
        match event {
            X11DropEvent::Entered { session_id, position_known } => {
                if !position_known {
                    return X11DropOutcome::Nothing;
                }
                X11DropOutcome::Measure(
                    self.begin_native_external_file_drop_session(FileDropSessionIdentity::X11(session_id)),
                )
            },
            X11DropEvent::Moved { session_id, position_known } => {
                if !position_known {
                    return X11DropOutcome::Nothing;
                }
                if self.move_native_file_drop_session(FileDropSessionIdentity::X11(session_id)) {
                    let ghost mid = *self;
                    let h = self.refresh_hovered_target_from_ready_layout(hit, now);
                    proof {
                        assert(hover_refreshed(mid, *self, *hit, now, h));
                    }
                    X11DropOutcome::Refreshed(h)
                } else {
                    X11DropOutcome::Nothing
                }
            },
            X11DropEvent::Left { session_id } => {
                self.leave_native_file_drop_session(FileDropSessionIdentity::X11(session_id));
                X11DropOutcome::Nothing
            },
            X11DropEvent::Dropped { session_id, position_known } => {
                let identity = FileDropSessionIdentity::X11(session_id);
                if !position_known {
                    self.cancel_file_drop_session(identity);
                    return X11DropOutcome::Nothing;
                }
                X11DropOutcome::Dropped(self.drop_native_file_drop_session(identity, true, hit))
            },
        }
    }

    /// Routes a Wayland drag-and-drop event to the drop session; `hit` is
    /// what the event's pointer hits in the measured layout. An entering
    /// drag starts a session ([`FileBrowser::begin_wayland_file_drop_session`]);
    /// a move refreshes the hovered target; a leave ends the session; a drop
    /// takes it, with or without a known drop point.
    pub fn accept_wayland_target_event(&mut self, event: WaylandDropEvent, hit: &FileDropHit, now: u64) -> (r: X11DropOutcome)
        requires
            hit_is_well_formed(*hit),
        ensures
            match event {
                WaylandDropEvent::Entered { session_id, internal_source } => match r {
                    X11DropOutcome::Measure(request) => wayland_session_begun(
                        *old(self),
                        *final(self),
                        Some(request),
                        session_id,
                        internal_source,
                    ),
                    X11DropOutcome::Nothing => wayland_session_begun(*old(self), *final(self), None, session_id, internal_source),
                    _ => false,
                },
                WaylandDropEvent::Moved { session_id } =>
                    if old(self).file_drop_session matches Some(s) && (s.identity == FileDropSessionIdentity::Wayland(session_id)
                        && s.phase == FileDropSessionPhase::Hovering) {
                        r matches X11DropOutcome::Refreshed(h) && hover_refreshed(
                            FileBrowser {
                                file_drop_session: Some(FileDropSessionState {
                                    has_position: true,
                                    ..old(self).file_drop_session.unwrap()
                                }),
                                ..*old(self)
                            },
                            *final(self),
                            *hit,
                            now,
                            h,
                        )
                    } else {
                        r is Nothing && *final(self) == *old(self)
                    },
                WaylandDropEvent::Left { session_id } => r is Nothing && native_session_left(
                    *old(self),
                    *final(self),
                    FileDropSessionIdentity::Wayland(session_id),
                ),
                WaylandDropEvent::Dropped { session_id, position_known } => r matches X11DropOutcome::Dropped(action)
                    && native_drop_made(
                    *old(self),
                    *final(self),
                    FileDropSessionIdentity::Wayland(session_id),
                    position_known,
                    *hit,
                    action,
                ),
            },
    {
        match event {
            WaylandDropEvent::Entered { session_id, internal_source } => {
                match self.begin_wayland_file_drop_session(session_id, internal_source) {
                    Some(request) => X11DropOutcome::Measure(request),
                    None => X11DropOutcome::Nothing,
                }
            },
            WaylandDropEvent::Moved { session_id } => {
                if self.move_native_file_drop_session(FileDropSessionIdentity::Wayland(session_id)) {
                    let ghost mid = *self;
                    let h = self.refresh_hovered_target_from_ready_layout(hit, now);
                    proof {
                        assert(hover_refreshed(mid, *self, *hit, now, h));
                    }
                    X11DropOutcome::Refreshed(h)
                } else {
                    X11DropOutcome::Nothing
                }
            },
            WaylandDropEvent::Left { session_id } => {
                self.leave_native_file_drop_session(FileDropSessionIdentity::Wayland(session_id));
                X11DropOutcome::Nothing
            },
            WaylandDropEvent::Dropped { session_id, position_known } => X11DropOutcome::Dropped(
                self.drop_native_file_drop_session(FileDropSessionIdentity::Wayland(session_id), position_known, hit),
            ),
        }
    }
}

} // verus!
