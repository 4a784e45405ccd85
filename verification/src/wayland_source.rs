use vstd::prelude::*;

use crate::browser::FileBrowser;
use crate::drag::{FileDragNativeDndState, FileDragState};
use crate::file_drop::{FileDropOrigin, FileDropSessionPhase};

verus! {

/// What the desktop reports about a drag this window handed to it.
#[derive(Debug, Clone, PartialEq, Eq)]
pub enum WaylandFileDragSourceEvent {
    Started(u64),
    Dropped(u64),
    Finished(u64),
    Cancelled(u64),
    Rejected { session_id: u64, details: String },
}

/// The window's drag is the desktop session `id`.
pub open spec fn drag_has_session(browser: FileBrowser, id: u64) -> bool {
    browser.file_drag matches Some(drag) && drag.native_dnd.session_id_of() == Some(id)
}

/// A drop session still hovering carries the window's drag of desktop session `id`.
pub open spec fn hovering_session_from(browser: FileBrowser, id: u64) -> bool {
    browser.file_drop_session matches Some(session) && (session.phase == FileDropSessionPhase::Hovering
        && (session.origin matches FileDropOrigin::Internal(snapshot) && snapshot.source_session_id == Some(id)))
}

/// `browser` once the desktop session `id` of its drag has ended: the drag
/// goes when it is that session, and so does a hovering drop session that
/// carries it, with its highlights.
pub open spec fn after_source_finished(browser: FileBrowser, id: u64) -> FileBrowser {
    let dropped_drag = if drag_has_session(browser, id) { None } else { browser.file_drag };
    if hovering_session_from(browser, id) {
        FileBrowser {
            file_drag: dropped_drag,
            file_drop_session: None,
            hovered_entry: None,
            hovered_sidebar: None,
            sidebar_bookmark_drop_slot: None,
            ..browser
        }
    } else {
        FileBrowser { file_drag: dropped_drag, ..browser }
    }
}

/// The error shown when the desktop refused to start a drag.
pub open spec fn rejected_drag_error(details: Seq<char>) -> Seq<char> {
    "Could not start Wayland file drag: "@ + details
}

impl FileBrowser {
    /// The desktop session `source_session_id` of a drag ended: see
    /// [`after_source_finished`]. Returns whether anything was its.
    pub fn finish_wayland_file_drag_source(&mut self, source_session_id: u64) -> (r: bool)
        ensures
            r == (drag_has_session(*old(self), source_session_id) || hovering_session_from(*old(self), source_session_id)),
            *final(self) == after_source_finished(*old(self), source_session_id),
    {
        let source_matches = match &self.file_drag {
            Some(drag) => drag.native_dnd.session_id() == Some(source_session_id),
            None => false,
        };
        if source_matches {
            self.file_drag = None;
        }
        let clear_target = match &self.file_drop_session {
            Some(session) => session.phase == FileDropSessionPhase::Hovering && match &session.origin {
                FileDropOrigin::Internal(snapshot) => snapshot.source_session_id == Some(source_session_id),
                FileDropOrigin::External => false,
            },
            None => false,
        };
        if clear_target {
            self.file_drop_session = None;
            self.clear_file_drop_visuals();
        }
        source_matches || clear_target
    }

    /// Follows the desktop's report on the window's drag: a requested drag
    /// of that session has started; a requested or started one has been
    /// dropped; a finished or cancelled session ends
    /// ([`FileBrowser::finish_wayland_file_drag_source`]); a refused one
    /// ends too, and when it was the window's, the refusal is shown.
    pub fn accept_wayland_source_event(&mut self, event: WaylandFileDragSourceEvent)
        ensures
            match event {
                WaylandFileDragSourceEvent::Started(id) => *final(self) == (FileBrowser {
                    file_drag: match old(self).file_drag {
                        Some(drag) => if drag.native_dnd == FileDragNativeDndState::Requested(id) {
                            Some(FileDragState { native_dnd: FileDragNativeDndState::Started(id), ..drag })
                        } else {
                            Some(drag)
                        },
                        None => None,
                    },
                    ..*old(self)
                }),
                WaylandFileDragSourceEvent::Dropped(id) => *final(self) == (FileBrowser {
                    file_drag: match old(self).file_drag {
                        Some(drag) => if drag.native_dnd == FileDragNativeDndState::Requested(id)
                            || drag.native_dnd == FileDragNativeDndState::Started(id) {
                            Some(FileDragState { native_dnd: FileDragNativeDndState::Dropped(id), ..drag })
                        } else {
                            Some(drag)
                        },
                        None => None,
                    },
                    ..*old(self)
                }),
                WaylandFileDragSourceEvent::Finished(id) => *final(self) == after_source_finished(*old(self), id),
                WaylandFileDragSourceEvent::Cancelled(id) => *final(self) == after_source_finished(*old(self), id),
                WaylandFileDragSourceEvent::Rejected { session_id, details } => if drag_has_session(*old(self), session_id)
                    || hovering_session_from(*old(self), session_id) {
                    &&& *final(self) == (FileBrowser { error: final(self).error, ..after_source_finished(*old(self), session_id) })
                    &&& final(self).error matches Some(e) && e@ == rejected_drag_error(details@)
                } else {
                    *final(self) == *old(self)
                },
            },
    {
        match event {
            WaylandFileDragSourceEvent::Started(id) => {
                if let Some(drag) = &mut self.file_drag {
                    if drag.native_dnd == FileDragNativeDndState::Requested(id) {
                        drag.native_dnd = FileDragNativeDndState::Started(id);
                    }
                }
            },
            WaylandFileDragSourceEvent::Dropped(id) => {
                if let Some(drag) = &mut self.file_drag {
                    if drag.native_dnd == FileDragNativeDndState::Requested(id) || drag.native_dnd
                        == FileDragNativeDndState::Started(id) {
                        drag.native_dnd = FileDragNativeDndState::Dropped(id);
                    }
                }
            },
            WaylandFileDragSourceEvent::Finished(id) => {
                self.finish_wayland_file_drag_source(id);
            },
            WaylandFileDragSourceEvent::Cancelled(id) => {
                self.finish_wayland_file_drag_source(id);
            },
            WaylandFileDragSourceEvent::Rejected { session_id, details } => {
                if self.finish_wayland_file_drag_source(session_id) {
                    let mut text = String::from_str("Could not start Wayland file drag: ");
                    proof {
                        reveal_strlit("Could not start Wayland file drag: ");
                    }
                    text.append(details.as_str());
                    self.error = Some(text);
                }
            },
        }
    }
}

} // verus!
