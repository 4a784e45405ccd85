use vstd::prelude::*;

use crate::browser::FileBrowser;
use crate::conflict::DestructiveActionConfirmation;
use crate::drag::{FileDragState, WaylandFileDragTargetSnapshot};
use crate::file_drop::{bump_generation, next_generation};
use crate::fs_path::{FsPath, PathModel};

verus! {

/// The directory a paste goes to: the one the open context menu was opened
/// on, else the directory under the pointer, else the current directory.
pub open spec fn paste_target(browser: FileBrowser) -> PathModel {
    match browser.context_menu {
        Some(menu) if menu.paste_directory is Some => menu.paste_directory.unwrap()@,
        _ => match browser.cursor_paste_directory {
            Some(directory) => directory@,
            None => browser.current_dir@,
        },
    }
}

/// No prompt, menu, modal tool, secondary window with focus, rename,
/// shortcut capture or queue panel takes keyboard input from the file view.
pub open spec fn content_shortcuts_enabled(browser: FileBrowser) -> bool {
    &&& browser.destructive_action_confirmation is None
    &&& browser.file_drop_prompt is None
    &&& browser.transfer_conflict is None
    &&& browser.context_menu is None
    &&& !browser.surfaces.open_with
    &&& !browser.surfaces.archive_creation
    &&& !browser.surfaces.archive_extraction
    &&& !browser.surfaces.batch_rename
    &&& !browser.surfaces.network_connection_editor
    &&& browser.settings_window != Some(browser.focused_window)
    &&& browser.properties_window != Some(browser.focused_window)
    &&& browser.preview_window != Some(browser.focused_window)
    &&& !browser.surfaces.renaming
    &&& !browser.surfaces.shortcut_capture
    &&& !browser.surfaces.operation_queue_panel
}

impl FileBrowser {
    /// Asks to confirm a destructive action: the confirmation shows, and the
    /// conflict prompt, the context menu and the queue panel close.
    pub fn request_destructive_action_confirmation(&mut self, confirmation: DestructiveActionConfirmation)
        ensures
            *final(self) == (FileBrowser {
                destructive_action_confirmation: Some(confirmation),
                transfer_conflict: None,
                context_menu: None,
                surfaces: crate::browser::OpenSurfaces { operation_queue_panel: false, ..old(self).surfaces },
                ..*old(self)
            }),
    {
        self.destructive_action_confirmation = Some(confirmation);
        self.transfer_conflict = None;
        self.context_menu = None;
        self.surfaces.operation_queue_panel = false;
    }

    /// Dismisses the destructive-action confirmation.
    pub fn cancel_destructive_action(&mut self)
        ensures
            *final(self) == (FileBrowser { destructive_action_confirmation: None, ..*old(self) }),
    {
        self.destructive_action_confirmation = None;
    }

    /// Starts a new breadcrumb measurement generation (wrapping) and returns it.
    pub fn next_breadcrumb_drop_target_measurement_generation(&mut self) -> (g: u64)
        ensures
            g == next_generation(old(self).breadcrumb_drop_target_measurement_generation),
            *final(self) == (FileBrowser { breadcrumb_drop_target_measurement_generation: g, ..*old(self) }),
    {
        self.breadcrumb_drop_target_measurement_generation = bump_generation(
            self.breadcrumb_drop_target_measurement_generation,
        );
        self.breadcrumb_drop_target_measurement_generation
    }

    /// The directory a paste goes to: see [`paste_target`].
    pub fn paste_target_directory(&self) -> (r: FsPath)
        ensures
            r@ == paste_target(*self),
    {
        if let Some(menu) = &self.context_menu {
            if let Some(directory) = &menu.paste_directory {
                return directory.copy();
            }
        }
        match &self.cursor_paste_directory {
            Some(directory) => directory.copy(),
            None => self.current_dir.copy(),
        }
    }

    /// Keyboard shortcuts reach the file view: see [`content_shortcuts_enabled`].
    pub fn file_browser_content_shortcuts_enabled(&self) -> (r: bool)
        ensures
            r == content_shortcuts_enabled(*self),
    {
        self.destructive_action_confirmation.is_none() && self.file_drop_prompt.is_none()
            && self.transfer_conflict.is_none() && self.context_menu.is_none() && !self.surfaces.open_with
            && !self.surfaces.archive_creation && !self.surfaces.archive_extraction && !self.surfaces.batch_rename
            && !self.surfaces.network_connection_editor && self.settings_window != Some(self.focused_window)
            && self.properties_window != Some(self.focused_window) && self.preview_window != Some(
            self.focused_window,
        ) && !self.surfaces.renaming && !self.surfaces.shortcut_capture && !self.surfaces.operation_queue_panel
    }

    /// Clears every highlight of a desktop drag: hovered entry and sidebar
    /// row, paste directory, bookmark slot and the drag's own target.
    pub fn clear_wayland_file_drag_highlight(&mut self)
        ensures
            *final(self) == (FileBrowser {
                hovered_entry: None,
                hovered_sidebar: None,
                cursor_paste_directory: None,
                sidebar_bookmark_drop_slot: None,
                file_drag: match old(self).file_drag {
                    Some(d) => Some(FileDragState { target: None, ..d }),
                    None => None,
                },
                ..*old(self)
            }),
    {
        self.hovered_entry = None;
        self.hovered_sidebar = None;
        self.cursor_paste_directory = None;
        self.sidebar_bookmark_drop_slot = None;
        if let Some(file_drag) = &mut self.file_drag {
            file_drag.target = None;
        }
    }

    /// Clears the highlights ([`FileBrowser::clear_wayland_file_drag_highlight`])
    /// and forgets the desktop drag's pointer and target.
    pub fn clear_wayland_file_drag_target(&mut self)
        ensures
            *final(self) == (FileBrowser {
                hovered_entry: None,
                hovered_sidebar: None,
                cursor_paste_directory: None,
                sidebar_bookmark_drop_slot: None,
                file_drag: match old(self).file_drag {
                    Some(d) => Some(FileDragState {
                        target: None,
                        wayland_target: match d.wayland_target {
                            Some(w) => Some(WaylandFileDragTargetSnapshot { has_position: false, target: None, ..w }),
                            None => None,
                        },
                        ..d
                    }),
                    None => None,
                },
                ..*old(self)
            }),
    {
        self.clear_wayland_file_drag_highlight();
        if let Some(file_drag) = &mut self.file_drag {
            if let Some(snapshot) = &mut file_drag.wayland_target {
                snapshot.has_position = false;
                snapshot.target = None;
            }
        }
    }
}

} // verus!
