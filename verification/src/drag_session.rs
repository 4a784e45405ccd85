use vstd::prelude::*;

use crate::browser::{FileBrowser, find_pane, pane_position};
use crate::drag::{
    FileDragState, copy_paths, directory_target_needs_fallback, display_directory_name,
    file_drag_transfer_label, is_no_op_move, move_is_no_op, paths_view, resolve_file_drag_target,
    resolved_drag_target, shown_directory_name,
};
use crate::drop_target::{trash_location, trash_location_path};
use crate::file_drop::{
    FileDropAction, FileDropActionModel, FileDropLayoutRequest, FileDropLayoutState, FileDropOrigin,
    FileDropSessionIdentity, FileDropSessionPhase, FileDropSessionState, InternalFileDragSnapshot,
    drop_target_changes, drop_target_set, next_generation,
};
use crate::fs_path::{FsPath, PathModel};
use crate::model::{
    BrowserPaneId, DropTargetModel, FileDragDropIntent, FileDropTarget, TabDestinationModel,
    TabDropDestination, copy_opt_path, copy_opt_target, opt_path_view, opt_target_view,
};

verus! {

impl FileBrowser {
    /// The intent of dropping `sources` into `target` under the held
    /// modifiers: Control without Shift copies; Alt links when neither the
    /// sources nor the target lie on a remote mount and Shift is not held;
    /// everything else moves.
    pub open spec fn drop_intent(&self, sources: Seq<PathModel>, target: PathModel) -> FileDragDropIntent {
        let m = self.keyboard_modifiers;
        if m.control && !m.shift {
            FileDragDropIntent::Copy
        } else if m.alt && !m.shift
            && (forall|i: int| 0 <= i < sources.len() ==> !self.on_remote_mount(#[trigger] sources[i]))
            && !self.on_remote_mount(target) {
            FileDragDropIntent::CreateLink
        } else {
            FileDragDropIntent::Move
        }
    }

    /// The intent of dropping `sources` into `target`: see [`FileBrowser::drop_intent`].
    pub fn file_drag_drop_intent(&self, sources: &[FsPath], target_directory: &FsPath) -> (r: FileDragDropIntent)
        ensures
            r == self.drop_intent(paths_view(sources@), target_directory@),
    {
        let modifiers = self.keyboard_modifiers;
        if modifiers.control && !modifiers.shift {
            return FileDragDropIntent::Copy;
        }
        let ghost sv = paths_view(sources@);
        let mut all_local = true;
        let mut i: usize = 0;
        while i < sources.len()
            invariant
                i <= sources.len(),
                sv == paths_view(sources@),
                all_local == forall|j: int| 0 <= j < i ==> !self.on_remote_mount(#[trigger] sv[j]),
            decreases sources.len() - i,
        {
            let remote = self.path_is_remote_mount(&sources[i]);
            proof {
                assert(sv[i as int] == sources@[i as int]@);
                if !all_local {
                    let j = choose|j: int| 0 <= j < i && !!self.on_remote_mount(#[trigger] sv[j]);
                    assert(0 <= j < i + 1);
                }
            }
            all_local = all_local && !remote;
            i = i + 1;
        }
        let symlinks_supported = !modifiers.shift && all_local && !self.path_is_remote_mount(target_directory);
        if modifiers.alt && symlinks_supported {
            return FileDragDropIntent::CreateLink;
        }
        FileDragDropIntent::Move
    }

    /// The label for a drop into `directory`: nothing when the move would
    /// leave every source where it is, the action label otherwise.
    pub open spec fn directory_capsule(&self, sources: Seq<PathModel>, directory: PathModel) -> Option<Seq<char>> {
        let intent = self.drop_intent(sources, directory);
        if intent == FileDragDropIntent::Move
            && forall|i: int| 0 <= i < sources.len() ==> is_no_op_move(#[trigger] sources[i], directory) {
            None
        } else {
            Some(match intent {
                FileDragDropIntent::Copy => "Copy to "@,
                FileDragDropIntent::CreateLink => "Create link to "@,
                FileDragDropIntent::Move => "Move to "@,
            } + shown_directory_name(directory))
        }
    }

    /// The label for a drop into `directory`: see [`FileBrowser::directory_capsule`].
    pub fn file_drag_directory_capsule(&self, sources: &[FsPath], directory: &FsPath) -> (r: Option<String>)
        ensures
            match r {
                Some(label) => self.directory_capsule(paths_view(sources@), directory@) == Some(label@),
                None => self.directory_capsule(paths_view(sources@), directory@) is None,
            },
    {
        let intent = self.file_drag_drop_intent(sources, directory);
        if intent == FileDragDropIntent::Move {
            let ghost sv = paths_view(sources@);
            let mut all_no_op = true;
            let mut i: usize = 0;
            while i < sources.len()
                invariant
                    i <= sources.len(),
                    sv == paths_view(sources@),
                    all_no_op == forall|j: int| 0 <= j < i ==> is_no_op_move(#[trigger] sv[j], directory@),
                decreases sources.len() - i,
            {
                let no_op = move_is_no_op(&sources[i], directory);
                proof {
                    assert(sv[i as int] == sources@[i as int]@);
                    if !all_no_op {
                        let j = choose|j: int| 0 <= j < i && !is_no_op_move(#[trigger] sv[j], directory@);
                        assert(0 <= j < i + 1);
                    }
                }
                all_no_op = all_no_op && no_op;
                i = i + 1;
            }
            if all_no_op {
                return None;
            }
        }
        Some(file_drag_transfer_label(intent, directory))
    }

    /// The action label shown beside a drag: nothing unless the drag is
    /// under way, the pointer is not over one of the dragged files and a
    /// target is hovered; a directory or a tab showing one gets its directory
    /// label, the trash or a trash tab "Move to Trash", a bookmark slot nothing.
    pub open spec fn action_capsule(&self) -> Option<Seq<char>> {
        match (self.file_drag, self.file_drop_session) {
            (Some(drag), Some(session)) => {
                let sources = paths_view(drag.sources@);
                if !drag.dragging() || (self.hovered_entry matches Some(h) && sources.contains(h@)) {
                    None
                } else {
                    match opt_target_view(session.hovered_target) {
                        Some(DropTargetModel::Directory(d)) => self.directory_capsule(sources, d),
                        Some(DropTargetModel::Trash) => Some("Move to Trash"@),
                        Some(DropTargetModel::Tab(t)) => match t.destination {
                            TabDestinationModel::Trash => Some("Move to Trash"@),
                            TabDestinationModel::Directory(d) => self.directory_capsule(sources, d),
                        },
                        _ => None,
                    }
                }
            },
            _ => None,
        }
    }

    /// The action label shown beside a drag: see [`FileBrowser::action_capsule`].
    pub fn file_drag_action_capsule_label(&self) -> (r: Option<String>)
        ensures
            match r {
                Some(label) => self.action_capsule() == Some(label@),
                None => self.action_capsule() is None,
            },
    {
        let drag = match &self.file_drag {
            Some(drag) => drag,
            None => return None,
        };
        let session = match &self.file_drop_session {
            Some(session) => session,
            None => return None,
        };
        if !drag.is_dragging() {
            return None;
        }
        if let Some(hovered) = &self.hovered_entry {
            let ghost sv = paths_view(drag.sources@);
            let mut i: usize = 0;
            while i < drag.sources.len()
                invariant
                    i <= drag.sources.len(),
                    sv == paths_view(drag.sources@),
                    self.file_drag == Some(*drag),
                    self.file_drop_session is Some,
                    self.hovered_entry == Some(*hovered),
                    drag.dragging(),
                    forall|j: int| 0 <= j < i ==> sv[j] != hovered@,
                decreases drag.sources.len() - i,
            {
                if drag.sources[i].same_path(hovered) {
                    proof {
                        assert(sv[i as int] == drag.sources@[i as int]@);
                        assert(sv[i as int] == hovered@);
                        assert(sv.contains(hovered@));
                    }
                    return None;
                }
                proof {
                    assert(sv[i as int] == drag.sources@[i as int]@);
                }
                i = i + 1;
            }
        }
        match &session.hovered_target {
            Some(FileDropTarget::Directory(directory)) => self.file_drag_directory_capsule(drag.sources.as_slice(), directory),
            Some(FileDropTarget::Trash) => Some(String::from_str("Move to Trash")),
            Some(FileDropTarget::Tab(tab)) => match &tab.destination {
                TabDropDestination::Trash => Some(String::from_str("Move to Trash")),
                TabDropDestination::Directory(directory) =>
                    self.file_drag_directory_capsule(drag.sources.as_slice(), directory),
            },
            _ => None,
        }
    }

    /// Points the drop session at `directory`, as
    /// [`FileBrowser::set_file_drop_target`] does.
    pub fn set_file_drag_target(&mut self, directory: FsPath) -> (changed: bool)
        ensures
            changed == drop_target_changes(*old(self), Some(FileDropTarget::Directory(directory))),
            drop_target_set(*old(self), *final(self), Some(FileDropTarget::Directory(directory))),
    {
        self.set_file_drop_target(Some(FileDropTarget::Directory(directory)))
    }

    /// Clears the hovered target of the drop session, as
    /// [`FileBrowser::set_file_drop_target`] does.
    pub fn clear_file_drag_target(&mut self) -> (changed: bool)
        ensures
            changed == drop_target_changes(*old(self), None),
            drop_target_set(*old(self), *final(self), None),
    {
        self.set_file_drop_target(None)
    }

    /// Clears the hovered target, as [`FileBrowser::set_file_drop_target`]
    /// does, when it is `directory`, or the trash when `directory` is the
    /// trash location; otherwise nothing changes.
    pub fn clear_file_drag_target_if_matching(&mut self, directory: &FsPath)
        ensures
            ({
                &&& old(self).file_drop_session matches Some(s)
                &&& (opt_target_view(s.hovered_target) == Some(DropTargetModel::Directory(directory@))
                    || (directory@ == trash_location() && s.hovered_target == Some(FileDropTarget::Trash)))
            }) ==> drop_target_set(*old(self), *final(self), None),
            !({
                &&& old(self).file_drop_session matches Some(s)
                &&& (opt_target_view(s.hovered_target) == Some(DropTargetModel::Directory(directory@))
                    || (directory@ == trash_location() && s.hovered_target == Some(FileDropTarget::Trash)))
            }) ==> *final(self) == *old(self),
    {
        let matches = match &self.file_drop_session {
            Some(session) => match &session.hovered_target {
                Some(FileDropTarget::Directory(target)) => target.same_path(directory),
                Some(FileDropTarget::Trash) => directory.same_path(&trash_location_path()),
                _ => false,
            },
            None => false,
        };
        if matches {
            self.set_file_drop_target(None);
        }
    }

    /// The view state of a pane: the live state for the active pane.
    pub open spec fn pane_shows_trash(&self, pane_id: BrowserPaneId) -> Option<bool> {
        if pane_id == self.active_pane() {
            Some(self.is_trash_view)
        } else {
            match pane_position(self.panes@, pane_id) {
                Some(i) => Some(self.panes@[i].is_trash_view),
                None => None,
            }
        }
    }

    /// A pane takes file drops when it exists and is not showing the trash.
    pub open spec fn pane_accepts_drag(&self, pane_id: BrowserPaneId) -> bool {
        self.pane_shows_trash(pane_id) == Some(false)
    }

    /// A pane takes file drops when it exists and is not showing the trash.
    pub fn pane_accepts_file_drag(&self, pane_id: BrowserPaneId) -> (r: bool)
        ensures
            r == self.pane_accepts_drag(pane_id),
    {
        if pane_id == self.active_pane_id() {
            return !self.is_trash_view;
        }
        match find_pane(&self.panes, pane_id) {
            Some(i) => !self.panes[i].is_trash_view,
            None => false,
        }
    }

    /// A release over a measured drop directory of a pane drops there when the pane takes drops.
    pub fn file_drag_release_directory_for_drop_target(&self, pane_id: BrowserPaneId, directory: FsPath) -> (r: Option<FsPath>)
        ensures
            r == if self.pane_accepts_drag(pane_id) { Some(directory) } else { None },
    {
        if self.pane_accepts_file_drag(pane_id) {
            Some(directory)
        } else {
            None
        }
    }

    /// The directory of another pane under the pointer, which a release there
    /// falls back to; `pane_at_cursor` is the pane under the pointer.
    pub fn file_drag_drop_directory_at_cursor(&self, pane_at_cursor: Option<BrowserPaneId>) -> (r: Option<FsPath>)
        ensures
            opt_path_view(r) == match pane_at_cursor {
                Some(pane_id) => if pane_id == self.active_pane() {
                    None
                } else {
                    match pane_position(self.panes@, pane_id) {
                        Some(i) => if self.panes@[i].is_trash_view { None } else { Some(self.panes@[i].current_dir@) },
                        None => None,
                    }
                },
                None => None,
            },
    {
        let pane_id = match pane_at_cursor {
            Some(pane_id) => pane_id,
            None => return None,
        };
        if pane_id == self.active_pane_id() {
            return None;
        }
        match find_pane(&self.panes, pane_id) {
            Some(i) => if self.panes[i].is_trash_view {
                None
            } else {
                Some(self.panes[i].current_dir.copy())
            },
            None => None,
        }
    }

    /// The desktop reports a drop that came from this window: it belongs to the
    /// active drag when that drag is under way and carries exactly these paths.
    pub fn active_file_drag_matches_wayland_drop(&self, paths: &[FsPath]) -> (r: bool)
        ensures
            r == (self.file_drag matches Some(d) && d.dragging() && paths_view(d.sources@) == paths_view(paths@)),
    {
        match &self.file_drag {
            Some(drag) => drag.is_dragging() && crate::drag::same_paths(drag.sources.as_slice(), paths),
            None => false,
        }
    }

    /// Starts the drop session of an in-window drag once it is under way.
    /// Returns the layout to measure.
    pub fn begin_iced_file_drop_session(&mut self) -> (r: Option<FileDropLayoutRequest>)
        ensures
            r is Some == (old(self).file_drag matches Some(d) && d.dragging()),
            r is None ==> *final(self) == *old(self),
            r matches Some(request) ==> {
                let d = old(self).file_drag.unwrap();
                &&& request == (FileDropLayoutRequest {
                    identity: FileDropSessionIdentity::Iced(d.gesture_id),
                    pane_id: old(self).active_pane(),
                    tab_id: old(self).active_tab_id,
                    generation: next_generation(old(self).file_drop_layout_generation),
                })
                &&& final(self).file_drop_session matches Some(f)
                &&& f.identity == FileDropSessionIdentity::Iced(d.gesture_id)
                &&& f.phase == FileDropSessionPhase::Hovering
                &&& f.layout == FileDropLayoutState::Pending(request)
                &&& f.hovered_target is None
                &&& f.origin matches FileDropOrigin::Internal(snapshot)
                    && paths_view(snapshot.sources@) == paths_view(d.sources@)
                &&& *final(self) == (FileBrowser {
                    file_drop_layout_generation: request.generation,
                    file_drop_session: final(self).file_drop_session,
                    ..*old(self)
                })
            },
    {
        let snapshot = match self.internal_file_drag_snapshot() {
            Some(snapshot) => snapshot,
            None => return None,
        };
        let gesture_id = match &self.file_drag {
            Some(drag) => drag.gesture_id,
            None => return None,
        };
        let identity = FileDropSessionIdentity::Iced(gesture_id);
        let pane_id = self.active_pane_id();
        let tab_id = self.active_tab_id;
        let request = self.next_file_drop_layout_request(identity, pane_id, tab_id);
        self.file_drop_session = Some(FileDropSessionState {
            identity,
            origin: FileDropOrigin::Internal(snapshot),
            phase: FileDropSessionPhase::Hovering,
            layout: FileDropLayoutState::Pending(request),
            has_position: true,
            hovered_target: None,
            tab_hover: None,
            hover_generation: 0,
            pending_payload: None,
            frozen_drop_target: None,
        });
        Some(request)
    }

    /// Ends an in-window drag released in the window: the target is the
    /// release directory, else the hovered target of its session, falling back
    /// to the directory of another pane under the pointer (see
    /// [`resolved_drag_target`]); then the drop goes there.
    pub fn finish_iced_file_drop(
        &mut self,
        file_drag: FileDragState,
        release_directory: Option<FsPath>,
        pane_at_cursor: Option<BrowserPaneId>,
    ) -> (r: FileDropAction)
        ensures
            final(self).file_drop_session is None,
            final(self).hovered_entry is None,
            final(self).hovered_sidebar is None,
            final(self).cursor_paste_directory is None,
            final(self).sidebar_bookmark_drop_slot is None,
            final(self).tabs == old(self).tabs,
            final(self).panes == old(self).panes,
            final(self).file_drag == old(self).file_drag,
            r@ == old(self).dispatched_drop(
                FileDropOrigin::Internal(InternalFileDragSnapshot {
                    source_session_id: None,
                    sources: file_drag.sources,
                    bookmark_source: file_drag.bookmark_source,
                }),
                resolved_drag_target(
                    paths_view(file_drag.sources@),
                    opt_path_view(release_directory),
                    match old(self).file_drop_session {
                        Some(s) => if s.identity == FileDropSessionIdentity::Iced(file_drag.gesture_id) {
                            opt_target_view(s.hovered_target)
                        } else {
                            None
                        },
                        None => None,
                    },
                    match pane_at_cursor {
                        Some(pane_id) => if pane_id == old(self).active_pane() {
                            None
                        } else {
                            match pane_position(old(self).panes@, pane_id) {
                                Some(i) => if old(self).panes@[i].is_trash_view { None } else { Some(old(self).panes@[i].current_dir@) },
                                None => None,
                            }
                        },
                        None => None,
                    },
                ),
                paths_view(file_drag.sources@),
            ),
    {
        let ghost before = *self;
        let identity = FileDropSessionIdentity::Iced(file_drag.gesture_id);
        let session_target = match &self.file_drop_session {
            Some(session) => if session.identity == identity {
                copy_opt_target(&session.hovered_target)
            } else {
                None
            },
            None => None,
        };
        let fallback = self.file_drag_drop_directory_at_cursor(pane_at_cursor);
        self.file_drop_session = None;
        self.clear_internal_file_drop_visuals();
        proof {
            crate::file_drop::lemma_dispatch_reads_only_tabs(*self, before);
        }
        let target = resolve_file_drag_target(file_drag.sources.as_slice(), release_directory, session_target, fallback);
        let paths = copy_paths(file_drag.sources.as_slice());
        self.dispatch_file_drop(
            FileDropOrigin::Internal(InternalFileDragSnapshot {
                source_session_id: None,
                sources: file_drag.sources,
                bookmark_source: file_drag.bookmark_source,
            }),
            target,
            paths,
        )
    }
}

impl FileBrowser {
    /// The bookmark a press on `sources` may drag to the sidebar: the one
    /// source, when it is a listed directory.
    pub open spec fn press_bookmark_source(&self, sources: Seq<PathModel>) -> Option<PathModel> {
        if sources.len() == 1 && self.kind_of(sources[0]) == Some(crate::model::FileKind::Directory) {
            Some(sources[0])
        } else {
            None
        }
    }

    /// A press on `pressed_path` may start dragging the selection's
    /// `sources`. Any bookmark slot highlight and drop session end. In the
    /// trash no drag starts. Otherwise the gesture counter steps on and, when
    /// there are sources, a press waiting for movement is recorded for the
    /// active pane and tab, with the columns shown at the press. Returns
    /// whether a press was recorded.
    pub fn start_file_drag(
        &mut self,
        pressed_path: FsPath,
        sources: Vec<FsPath>,
        stationary_action: crate::drag::FileDragStationaryAction,
        column_directories_snapshot: Vec<FsPath>,
    ) -> (started: bool)
        ensures
            ({
                let cleared = FileBrowser { sidebar_bookmark_drop_slot: None, file_drop_session: None, ..*old(self) };
                if old(self).is_trash_view {
                    !started && *final(self) == (FileBrowser { file_drag: None, ..cleared })
                } else {
                    let id = next_generation(old(self).next_file_drag_gesture_id);
                    &&& started == (sources@.len() > 0)
                    &&& *final(self) == (FileBrowser {
                        next_file_drag_gesture_id: id,
                        file_drag: final(self).file_drag,
                        ..cleared
                    })
                    &&& !started ==> final(self).file_drag is None
                    &&& started ==> (final(self).file_drag matches Some(drag) && {
                        &&& drag.gesture_id == id
                        &&& drag.source_pane_id == old(self).active_pane()
                        &&& drag.source_tab_id == old(self).active_tab_id
                        &&& drag.sources == sources
                        &&& drag.pressed_path == pressed_path
                        &&& opt_path_view(drag.bookmark_source) == old(self).press_bookmark_source(paths_view(sources@))
                        &&& drag.stationary_action == stationary_action
                        &&& drag.phase == crate::drag::FileDragPhase::WaitingForMovement
                        &&& drag.native_dnd == crate::drag::FileDragNativeDndState::NotRequested
                        &&& drag.column_directories_snapshot == column_directories_snapshot
                        &&& drag.target is None
                        &&& drag.wayland_target is None
                    })
                }
            }),
    {
        self.sidebar_bookmark_drop_slot = None;
        self.file_drop_session = None;
        if self.is_trash_view {
            self.file_drag = None;
            return false;
        }
        let source_pane_id = self.active_pane_id();
        let source_tab_id = self.active_tab_id;
        let bookmark_source = if sources.len() == 1 {
            match self.entry_kind(&sources[0]) {
                Some(crate::model::FileKind::Directory) => Some(sources[0].copy()),
                _ => None,
            }
        } else {
            None
        };
        self.next_file_drag_gesture_id = crate::file_drop::bump_generation(self.next_file_drag_gesture_id);
        if sources.len() == 0 {
            self.file_drag = None;
            return false;
        }
        self.file_drag = Some(FileDragState {
            gesture_id: self.next_file_drag_gesture_id,
            source_pane_id,
            source_tab_id,
            sources,
            pressed_path,
            bookmark_source,
            stationary_action,
            phase: crate::drag::FileDragPhase::WaitingForMovement,
            native_dnd: crate::drag::FileDragNativeDndState::NotRequested,
            column_directories_snapshot,
            target: None,
            wayland_target: None,
        });
        true
    }
}

/// What a pointer move during a press or drag calls for.
#[derive(Debug, Clone, Copy, PartialEq, Eq, Structural)]
pub enum FileDragMove {
    /// No press is recorded, or nothing changes.
    Nothing,
    /// The press just became a drag: hand it to the desktop when possible,
    /// else drag within the window.
    Activated,
    /// A drag whose pointer reached the window's edge: hand it to the
    /// desktop now.
    HandOffAtEdge,
}

impl FileBrowser {
    /// The pointer moved. A press waiting for movement becomes a drag once
    /// the pointer has gone far enough from the press (`moved_far_enough`);
    /// a drag whose pointer is in the band along the window's edge
    /// (`in_handoff_band`) is to be handed to the desktop.
    pub fn update_file_drag(&mut self, moved_far_enough: bool, in_handoff_band: bool) -> (r: FileDragMove)
        ensures
            match old(self).file_drag {
                None => r == FileDragMove::Nothing && *final(self) == *old(self),
                Some(drag) => if drag.phase == crate::drag::FileDragPhase::WaitingForMovement {
                    if moved_far_enough {
                        r == FileDragMove::Activated && *final(self) == (FileBrowser {
                            file_drag: Some(FileDragState { phase: crate::drag::FileDragPhase::Dragging, ..drag }),
                            ..*old(self)
                        })
                    } else {
                        r == FileDragMove::Nothing && *final(self) == *old(self)
                    }
                } else {
                    *final(self) == *old(self) && r == if in_handoff_band {
                        FileDragMove::HandOffAtEdge
                    } else {
                        FileDragMove::Nothing
                    }
                },
            },
    {
        match &mut self.file_drag {
            None => FileDragMove::Nothing,
            Some(drag) => {
                if drag.phase == crate::drag::FileDragPhase::WaitingForMovement {
                    if moved_far_enough {
                        drag.phase = crate::drag::FileDragPhase::Dragging;
                        FileDragMove::Activated
                    } else {
                        FileDragMove::Nothing
                    }
                } else if in_handoff_band {
                    FileDragMove::HandOffAtEdge
                } else {
                    FileDragMove::Nothing
                }
            },
        }
    }
}

/// What the desktop answered when asked to take over the window's drag.
#[derive(Debug, Clone, PartialEq, Eq)]
pub enum WaylandFileDragRequest {
    /// The desktop drag started as this session.
    Requested(u64),
    /// The desktop refused, saying why.
    Rejected(String),
    /// No desktop drag-and-drop is available.
    Unavailable,
}

impl FileBrowser {
    /// The press just became a drag and the desktop was asked to take it
    /// over, answering `outcome`. An accepted request records the desktop
    /// session on the drag. A refused one is shown, and like an unavailable
    /// desktop it leaves the drag in the window, whose drop session starts
    /// ([`FileBrowser::begin_iced_file_drop_session`]). Returns the layout
    /// that session measures.
    pub fn start_native_file_drag(&mut self, outcome: WaylandFileDragRequest) -> (r: Option<FileDropLayoutRequest>)
        requires
            old(self).file_drag is Some,
        ensures
            ({
                let drag = old(self).file_drag.unwrap();
                let in_window = |error: Option<String>| FileBrowser {
                    file_drag: Some(FileDragState { native_dnd: crate::drag::FileDragNativeDndState::NotRequested, ..drag }),
                    error,
                    ..*old(self)
                };
                match outcome {
                    WaylandFileDragRequest::Requested(id) => r is None && *final(self) == (FileBrowser {
                        file_drag: Some(FileDragState { native_dnd: crate::drag::FileDragNativeDndState::Requested(id), ..drag }),
                        ..*old(self)
                    }),
                    WaylandFileDragRequest::Rejected(e) => iced_drop_started(in_window(Some(e)), *final(self), r),
                    WaylandFileDragRequest::Unavailable => iced_drop_started(*old(self), *final(self), r),
                }
            }),
    {
        match outcome {
            WaylandFileDragRequest::Requested(id) => {
                if let Some(drag) = &mut self.file_drag {
                    drag.native_dnd = crate::drag::FileDragNativeDndState::Requested(id);
                }
                None
            },
            WaylandFileDragRequest::Rejected(error) => {
                if let Some(drag) = &mut self.file_drag {
                    drag.native_dnd = crate::drag::FileDragNativeDndState::NotRequested;
                }
                self.error = Some(error);
                self.begin_iced_file_drop_session()
            },
            WaylandFileDragRequest::Unavailable => self.begin_iced_file_drop_session(),
        }
    }
}

/// `after` and `r` are what [`FileBrowser::begin_iced_file_drop_session`]
/// makes of `before`: with a drag under way, an in-window drop session for
/// it, hovering and waiting for its layout `r`; otherwise nothing.
pub open spec fn iced_drop_started(before: FileBrowser, after: FileBrowser, r: Option<FileDropLayoutRequest>) -> bool {
    if before.file_drag matches Some(d) && d.dragging() {
        let d = before.file_drag.unwrap();
        let request = FileDropLayoutRequest {
            identity: FileDropSessionIdentity::Iced(d.gesture_id),
            pane_id: before.active_pane(),
            tab_id: before.active_tab_id,
            generation: next_generation(before.file_drop_layout_generation),
        };
        &&& r == Some(request)
        &&& after.file_drop_session matches Some(f) && {
            &&& f.identity == FileDropSessionIdentity::Iced(d.gesture_id)
            &&& f.phase == FileDropSessionPhase::Hovering
            &&& f.layout == FileDropLayoutState::Pending(request)
            &&& f.hovered_target is None
            &&& f.origin matches FileDropOrigin::Internal(snapshot) && paths_view(snapshot.sources@) == paths_view(d.sources@)
        }
        &&& after == (FileBrowser {
            file_drop_layout_generation: request.generation,
            file_drop_session: after.file_drop_session,
            ..before
        })
    } else {
        r is None && after == before
    }
}

} // verus!
