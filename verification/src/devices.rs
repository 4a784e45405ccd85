use vstd::prelude::*;

use crate::browser::FileBrowser;
use crate::fs_path::FsPath;
use crate::sidebar_bookmarks::{SidebarDeviceAction, sidebar_device_action_error_verb};
use crate::startup::string_eq;

verus! {

/// The verb that names `action` in an error message.
pub open spec fn action_verb(action: SidebarDeviceAction) -> Seq<char> {
    match action {
        SidebarDeviceAction::Mount => "mount"@,
        SidebarDeviceAction::Unmount => "unmount"@,
        SidebarDeviceAction::Eject => "eject"@,
    }
}

/// The error shown when `action` failed with `error`.
pub open spec fn device_action_error(action: SidebarDeviceAction, error: Seq<char>) -> Seq<char> {
    "Could not "@ + action_verb(action) + " storage device: "@ + error
}

impl FileBrowser {
    /// Starts `action` on the storage device `id`: the context menu closes
    /// and the device's action is under way.
    pub fn perform_sidebar_device_action(&mut self, id: String)
        ensures
            *final(self) == (FileBrowser { context_menu: None, pending_sidebar_device_action: Some(id), ..*old(self) }),
    {
        self.context_menu = None;
        self.pending_sidebar_device_action = Some(id);
    }

    /// `action` on the storage device `id` finished. The device's action is
    /// no longer under way. A mount that gave a mount point opens it
    /// (returned); a failure is shown.
    pub fn accept_sidebar_device_action_finished(
        &mut self,
        id: String,
        action: SidebarDeviceAction,
        result: Result<Option<FsPath>, String>,
    ) -> (open: Option<FsPath>)
        ensures
            ({
                let cleared = FileBrowser {
                    pending_sidebar_device_action: if old(self).pending_sidebar_device_action matches Some(p) && p@ == id@ {
                        None
                    } else {
                        old(self).pending_sidebar_device_action
                    },
                    ..*old(self)
                };
                match result {
                    Ok(Some(path)) => if action == SidebarDeviceAction::Mount {
                        open == Some(path) && *final(self) == cleared
                    } else {
                        open is None && *final(self) == cleared
                    },
                    Ok(None) => open is None && *final(self) == cleared,
                    Err(e) => {
                        &&& open is None
                        &&& *final(self) == (FileBrowser { error: final(self).error, ..cleared })
                        &&& final(self).error matches Some(t) && t@ == device_action_error(action, e@)
                    },
                }
            }),
    {
        let matches = match &self.pending_sidebar_device_action {
            Some(pending) => string_eq(pending, &id),
            None => false,
        };
        if matches {
            self.pending_sidebar_device_action = None;
        }
        match result {
            Ok(Some(path)) => {
                if action == SidebarDeviceAction::Mount {
                    Some(path)
                } else {
                    None
                }
            },
            Ok(None) => None,
            Err(error) => {
                let mut text = String::from_str("Could not ");
                proof {
                    reveal_strlit("Could not ");
                }
                text.append(sidebar_device_action_error_verb(action));
                text.append(" storage device: ");
                proof {
                    reveal_strlit(" storage device: ");
                }
                text.append(error.as_str());
                self.error = Some(text);
                None
            },
        }
    }
}

} // verus!
