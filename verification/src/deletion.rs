use vstd::prelude::*;

use crate::actions::paste_target;
use crate::browser::{FileBrowser, FileDropPrompt, OpenSurfaces};
use crate::conflict::DestructiveActionConfirmation;
use crate::drag::{copy_paths, paths_view};
use crate::fs_path::{FsPath, PathModel};

verus! {

/// A file operation handed to the queue of background operations.
#[derive(Debug, Clone, PartialEq, Eq)]
pub enum QueuedFileOperation {
    Trash { paths: Vec<FsPath> },
    DeletePermanently { paths: Vec<FsPath> },
    DeleteTrashEntries { entries: Vec<FsPath> },
    EmptyTrash,
}

/// What asking to move the selection to the trash led to.
#[derive(Debug, Clone, PartialEq, Eq)]
pub enum TrashRequest {
    /// The trash is shown: its selected entries are to be deleted for good.
    DeleteTrashEntries,
    /// Local items go to the trash.
    Queue(QueuedFileOperation),
    /// Network items cannot go to the trash: deleting them for good waits
    /// for confirmation.
    ConfirmationRequested,
    /// Nothing to do, or local and network items were mixed (an error shows).
    Nothing,
}

/// The paths of `paths` on a remote mount of `browser` (`remote` true), or
/// the others, in order.
pub open spec fn paths_on_remote(browser: FileBrowser, paths: Seq<PathModel>, remote: bool) -> Seq<PathModel> {
    paths.filter(|p: PathModel| browser.on_remote_mount(p) == remote)
}

/// The error shown when local and network items are deleted together.
pub open spec fn mixed_trash_error() -> Seq<char> {
    "Delete local and network items separately so local files can use Trash"@
}

/// The error shown when a drop would open a second operation prompt.
pub open spec fn busy_prompt_error() -> Seq<char> {
    "Finish the current file operation prompt before dropping files"@
}

/// A prompt about a file operation is open.
pub open spec fn operation_prompt_open(browser: FileBrowser) -> bool {
    browser.destructive_action_confirmation is Some || browser.file_drop_prompt is Some
        || browser.transfer_conflict is Some
}

/// `after` and `opened` are `before` once outside files `paths` were
/// dropped, as [`FileBrowser::accept_external_wayland_file_drop`] places them.
pub open spec fn external_drop_placed(
    before: FileBrowser,
    after: FileBrowser,
    directory_at_position: Option<FsPath>,
    has_position: bool,
    over_pane: bool,
    paths: Vec<FsPath>,
    opened: bool,
) -> bool {
    let directory = match directory_at_position {
        Some(d) => Some(d@),
        None => if has_position && over_pane {
            None
        } else if !before.is_trash_view {
            Some(paste_target(before))
        } else {
            None
        },
    };
    match directory {
        None => !opened && after == before,
        Some(d) => {
            &&& paths@.len() == 0 ==> !opened && after == before
            &&& paths@.len() > 0 && operation_prompt_open(before) ==> !opened && after == (FileBrowser {
                error: after.error,
                ..before
            }) && (after.error matches Some(e) && e@ == busy_prompt_error())
            &&& paths@.len() > 0 && !operation_prompt_open(before) ==> opened && (after.file_drop_prompt
                matches Some(p) && p.paste_directory@ == d && p.paths == paths) && after == (FileBrowser {
                context_menu: None,
                surfaces: OpenSurfaces { open_with: false, operation_queue_panel: false, ..before.surfaces },
                file_drop_prompt: after.file_drop_prompt,
                ..before
            })
        },
    }
}

impl FileBrowser {
    /// The paths of `paths` on a remote mount (`remote` true), or the others, in order.
    pub fn split_remote_paths(&self, paths: &Vec<FsPath>, remote: bool) -> (r: Vec<FsPath>)
        ensures
            paths_view(r@) == paths_on_remote(*self, paths_view(paths@), remote),
    {
        let ghost all = paths_view(paths@);
        let mut kept: Vec<FsPath> = Vec::new();
        let mut i: usize = 0;
        while i < paths.len()
            invariant
                i <= paths@.len(),
                all == paths_view(paths@),
                paths_view(kept@) == paths_on_remote(*self, all.take(i as int), remote),
            decreases paths.len() - i,
        {
            proof {
                assert(all.take(i + 1).drop_last() =~= all.take(i as int));
                reveal(Seq::filter);
            }
            let on_remote = self.path_is_remote_mount(&paths[i]);
            let ghost before = paths_view(kept@);
            if on_remote == remote {
                kept.push(paths[i].copy());
                proof {
                    assert(paths_view(kept@) =~= before.push(all[i as int]));
                }
            }
            i = i + 1;
        }
        proof {
            assert(all.take(i as int) =~= all);
        }
        kept
    }

    /// Moves the selection's `paths` to the trash. The context menu closes.
    /// In the trash, its entries are deleted for good instead. Local items
    /// go to the trash; items only on network mounts are to be deleted for
    /// good once confirmed; a mix of both shows an error; no items do nothing.
    pub fn trash_selected(&mut self, paths: Vec<FsPath>) -> (r: TrashRequest)
        ensures
            ({
                let closed = FileBrowser { context_menu: None, ..*old(self) };
                let remote = paths_on_remote(*old(self), paths_view(paths@), true);
                let local = paths_on_remote(*old(self), paths_view(paths@), false);
                if old(self).is_trash_view {
                    r == TrashRequest::DeleteTrashEntries && *final(self) == closed
                } else if remote.len() == 0 && local.len() == 0 {
                    r == TrashRequest::Nothing && *final(self) == closed
                } else if remote.len() == 0 {
                    &&& *final(self) == closed
                    &&& r matches TrashRequest::Queue(QueuedFileOperation::Trash { paths: t }) && paths_view(t@) == local
                } else if local.len() == 0 {
                    &&& r == TrashRequest::ConfirmationRequested
                    &&& final(self).destructive_action_confirmation matches Some(
                        DestructiveActionConfirmation::DeletePermanently { paths: d },
                    ) && paths_view(d@) == remote
                    &&& *final(self) == (FileBrowser {
                        destructive_action_confirmation: final(self).destructive_action_confirmation,
                        transfer_conflict: None,
                        surfaces: OpenSurfaces { operation_queue_panel: false, ..old(self).surfaces },
                        ..closed
                    })
                } else {
                    &&& r == TrashRequest::Nothing
                    &&& final(self).error matches Some(e) && e@ == mixed_trash_error()
                    &&& *final(self) == (FileBrowser { error: final(self).error, ..closed })
                }
            }),
    {
        let remote = self.split_remote_paths(&paths, true);
        let local = self.split_remote_paths(&paths, false);
        self.context_menu = None;
        if self.is_trash_view {
            return TrashRequest::DeleteTrashEntries;
        }
        if remote.len() == 0 && local.len() == 0 {
            return TrashRequest::Nothing;
        }
        if remote.len() == 0 {
            return TrashRequest::Queue(QueuedFileOperation::Trash { paths: local });
        }
        if local.len() == 0 {
            self.request_destructive_action_confirmation(DestructiveActionConfirmation::DeletePermanently { paths: remote });
            return TrashRequest::ConfirmationRequested;
        }
        let error = String::from_str("Delete local and network items separately so local files can use Trash");
        proof {
            reveal_strlit("Delete local and network items separately so local files can use Trash");
        }
        self.error = Some(error);
        TrashRequest::Nothing
    }

    /// Carries out the confirmed destructive action, which is then gone:
    /// deleting trash entries or items for good (when there are any), or
    /// emptying the trash.
    pub fn confirm_destructive_action(&mut self) -> (r: Option<QueuedFileOperation>)
        ensures
            *final(self) == (FileBrowser { destructive_action_confirmation: None, ..*old(self) }),
            match old(self).destructive_action_confirmation {
                None => r is None,
                Some(DestructiveActionConfirmation::DeleteTrashEntries { entries }) => if entries@.len() == 0 {
                    r is None
                } else {
                    r matches Some(QueuedFileOperation::DeleteTrashEntries { entries: e }) && paths_view(e@)
                        == paths_view(entries@)
                },
                Some(DestructiveActionConfirmation::DeletePermanently { paths }) => if paths@.len() == 0 {
                    r is None
                } else {
                    r matches Some(QueuedFileOperation::DeletePermanently { paths: p }) && paths_view(p@)
                        == paths_view(paths@)
                },
                Some(DestructiveActionConfirmation::EmptyTrash) => r == Some(QueuedFileOperation::EmptyTrash),
            },
    {
        let confirmation = self.destructive_action_confirmation.take();
        match confirmation {
            None => None,
            Some(DestructiveActionConfirmation::DeleteTrashEntries { entries }) => {
                if entries.len() == 0 {
                    None
                } else {
                    Some(QueuedFileOperation::DeleteTrashEntries { entries })
                }
            },
            Some(DestructiveActionConfirmation::DeletePermanently { paths }) => {
                if paths.len() == 0 {
                    None
                } else {
                    Some(QueuedFileOperation::DeletePermanently { paths })
                }
            },
            Some(DestructiveActionConfirmation::EmptyTrash) => Some(QueuedFileOperation::EmptyTrash),
        }
    }

    /// Asks what to do with `paths` dropped on `paste_directory`. Nothing
    /// happens without paths. While another operation prompt is open an
    /// error shows instead. Otherwise the context menu, the "open with"
    /// chooser and the queue panel close and the prompt opens.
    pub fn request_file_drop_prompt(&mut self, paste_directory: FsPath, paths: Vec<FsPath>) -> (opened: bool)
        ensures
            paths@.len() == 0 ==> !opened && *final(self) == *old(self),
            paths@.len() > 0 && operation_prompt_open(*old(self)) ==> !opened && *final(self) == (FileBrowser {
                error: final(self).error,
                ..*old(self)
            }) && (final(self).error matches Some(e) && e@ == busy_prompt_error()),
            paths@.len() > 0 && !operation_prompt_open(*old(self)) ==> opened && *final(self) == (FileBrowser {
                context_menu: None,
                surfaces: OpenSurfaces { open_with: false, operation_queue_panel: false, ..old(self).surfaces },
                file_drop_prompt: Some(FileDropPrompt { paste_directory, paths }),
                ..*old(self)
            }),
    {
        if paths.len() == 0 {
            return false;
        }
        if self.destructive_action_confirmation.is_some() || self.file_drop_prompt.is_some()
            || self.transfer_conflict.is_some() {
            let error = String::from_str("Finish the current file operation prompt before dropping files");
            proof {
                reveal_strlit("Finish the current file operation prompt before dropping files");
            }
            self.error = Some(error);
            return false;
        }
        self.context_menu = None;
        self.surfaces.open_with = false;
        self.surfaces.operation_queue_panel = false;
        self.file_drop_prompt = Some(FileDropPrompt { paste_directory, paths });
        true
    }

    /// Outside files were dropped on the window. They go to the directory
    /// measured under the drop point (`directory_at_position`); failing
    /// that, a drop with a point (`has_position`) over a pane (`over_pane`)
    /// goes nowhere, and any other one goes to the paste target
    /// ([`paste_target`]) unless the trash is shown. Where they go, the
    /// prompt asks what to do ([`FileBrowser::request_file_drop_prompt`]).
    /// Returns whether it opened.
    pub fn accept_external_wayland_file_drop(
        &mut self,
        directory_at_position: Option<FsPath>,
        has_position: bool,
        over_pane: bool,
        paths: Vec<FsPath>,
    ) -> (opened: bool)
        ensures
            external_drop_placed(*old(self), *final(self), directory_at_position, has_position, over_pane, paths, opened),
    {
        let directory = match directory_at_position {
            Some(d) => Some(d),
            None => if has_position && over_pane {
                None
            } else if !self.is_trash_view {
                Some(self.paste_target_directory())
            } else {
                None
            },
        };
        match directory {
            None => false,
            Some(d) => self.request_file_drop_prompt(d, paths),
        }
    }
}

} // verus!
