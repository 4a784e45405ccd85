use vstd::prelude::*;

use crate::actions::paste_target;
use crate::browser::FileBrowser;
use crate::drag::{copy_paths, paths_view};
use crate::file_drop::{FileClipboardOperation, FileClipboardSelection};
use crate::fs_path::FsPath;

verus! {

/// What the desktop clipboard held when a paste read it.
#[derive(Debug, Clone, PartialEq, Eq)]
pub enum DesktopClipboardContent {
    Files(FileClipboardSelection),
    Text(String),
    Image,
}

/// What a paste into a directory comes to.
#[derive(Debug, Clone, PartialEq, Eq)]
pub enum ClipboardPaste {
    /// Nothing to paste.
    Nothing,
    /// Copy or move these files into the directory.
    Files { directory: FsPath, selection: FileClipboardSelection },
    /// Write this text into a new file of the directory.
    Text { directory: FsPath, text: String },
    /// Write the clipboard's image into a new file of the directory.
    Image { directory: FsPath },
}

/// The paste of `selection` into `directory`, if any.
pub open spec fn files_pasted(r: ClipboardPaste, directory: FsPath, selection: Option<FileClipboardSelection>) -> bool {
    match selection {
        None => r == ClipboardPaste::Nothing,
        Some(s) => r == (ClipboardPaste::Files { directory, selection: s }),
    }
}

/// A clipboard selection as plain values.
pub open spec fn selection_view(selection: Option<FileClipboardSelection>) -> Option<(FileClipboardOperation, Seq<crate::fs_path::PathModel>)> {
    match selection {
        Some(s) => Some((s.operation, paths_view(s.paths@))),
        None => None,
    }
}

/// A copy of `selection`.
pub fn copy_selection(selection: &Option<FileClipboardSelection>) -> (r: Option<FileClipboardSelection>)
    ensures
        selection_view(r) == selection_view(*selection),
{
    match selection {
        Some(s) => Some(FileClipboardSelection { operation: s.operation, paths: copy_paths(s.paths.as_slice()) }),
        None => None,
    }
}

impl FileBrowser {
    /// Copies (or, with `operation` Move, cuts) the selection's `paths`:
    /// the context menu closes; outside the trash, when there are paths,
    /// they become the pending operation and are returned to be written to
    /// the desktop clipboard.
    pub fn copy_or_cut_selected(&mut self, operation: FileClipboardOperation, paths: Vec<FsPath>) -> (r: Option<FileClipboardSelection>)
        ensures
            old(self).is_trash_view || paths@.len() == 0 ==> r is None && *final(self) == (FileBrowser {
                context_menu: None,
                ..*old(self)
            }),
            !old(self).is_trash_view && paths@.len() > 0 ==> ({
                let selection = FileClipboardSelection { operation, paths };
                &&& r matches Some(s) && s.operation == operation && paths_view(s.paths@) == paths_view(paths@)
                &&& *final(self) == (FileBrowser { context_menu: None, pending_operation: Some(selection), ..*old(self) })
            }),
    {
        self.context_menu = None;
        if self.is_trash_view || paths.len() == 0 {
            return None;
        }
        let written = FileClipboardSelection { operation, paths: copy_paths(paths.as_slice()) };
        self.pending_operation = Some(FileClipboardSelection { operation, paths });
        Some(written)
    }

    /// Copies the selection's `paths`: see [`FileBrowser::copy_or_cut_selected`].
    pub fn copy_selected(&mut self, paths: Vec<FsPath>) -> (r: Option<FileClipboardSelection>)
        ensures
            old(self).is_trash_view || paths@.len() == 0 ==> r is None && *final(self) == (FileBrowser {
                context_menu: None,
                ..*old(self)
            }),
            !old(self).is_trash_view && paths@.len() > 0 ==> ({
                let selection = FileClipboardSelection { operation: FileClipboardOperation::Copy, paths };
                &&& r matches Some(s) && s.operation == FileClipboardOperation::Copy && paths_view(s.paths@) == paths_view(paths@)
                &&& *final(self) == (FileBrowser { context_menu: None, pending_operation: Some(selection), ..*old(self) })
            }),
    {
        self.copy_or_cut_selected(FileClipboardOperation::Copy, paths)
    }

    /// Cuts the selection's `paths`: see [`FileBrowser::copy_or_cut_selected`].
    pub fn move_selected(&mut self, paths: Vec<FsPath>) -> (r: Option<FileClipboardSelection>)
        ensures
            old(self).is_trash_view || paths@.len() == 0 ==> r is None && *final(self) == (FileBrowser {
                context_menu: None,
                ..*old(self)
            }),
            !old(self).is_trash_view && paths@.len() > 0 ==> ({
                let selection = FileClipboardSelection { operation: FileClipboardOperation::Move, paths };
                &&& r matches Some(s) && s.operation == FileClipboardOperation::Move && paths_view(s.paths@) == paths_view(paths@)
                &&& *final(self) == (FileBrowser { context_menu: None, pending_operation: Some(selection), ..*old(self) })
            }),
    {
        self.copy_or_cut_selected(FileClipboardOperation::Move, paths)
    }

    /// Starts a paste: outside the trash, the desktop clipboard is to be read
    /// for the paste target ([`paste_target`]), with the pending operation as
    /// the fallback. The context menu closes either way.
    pub fn paste_pending(&mut self) -> (r: Option<(FsPath, Option<FileClipboardSelection>)>)
        ensures
            *final(self) == (FileBrowser { context_menu: None, ..*old(self) }),
            old(self).is_trash_view ==> r is None,
            !old(self).is_trash_view ==> (r matches Some((directory, fallback)) && directory@ == paste_target(*old(self))
                && selection_view(fallback) == selection_view(old(self).pending_operation)),
    {
        if self.is_trash_view {
            self.context_menu = None;
            return None;
        }
        let directory = self.paste_target_directory();
        self.context_menu = None;
        Some((directory, copy_selection(&self.pending_operation)))
    }

    /// Writing to the desktop clipboard finished: a failure is shown, a
    /// success clears the error shown.
    pub fn accept_file_clipboard_write(&mut self, result: Result<(), String>)
        ensures
            *final(self) == (FileBrowser {
                error: match result {
                    Ok(()) => None,
                    Err(e) => Some(e),
                },
                ..*old(self)
            }),
    {
        match result {
            Ok(()) => {
                self.error = None;
            },
            Err(error) => {
                self.error = Some(error);
            },
        }
    }

    /// The desktop clipboard was read for a paste into `paste_directory`.
    /// Files on it are pasted, text and images go into new files; an empty
    /// clipboard, or one that could not be read, falls back on the pending
    /// operation `fallback`; a read failure without a fallback is shown.
    pub fn accept_desktop_clipboard_paste(
        &mut self,
        paste_directory: FsPath,
        fallback: Option<FileClipboardSelection>,
        content: Result<Option<DesktopClipboardContent>, String>,
    ) -> (r: ClipboardPaste)
        ensures
            match content {
                Ok(Some(DesktopClipboardContent::Files(selection))) => *final(self) == *old(self) && r == (ClipboardPaste::Files {
                    directory: paste_directory,
                    selection,
                }),
                Ok(Some(DesktopClipboardContent::Text(text))) => *final(self) == *old(self) && r == (ClipboardPaste::Text {
                    directory: paste_directory,
                    text,
                }),
                Ok(Some(DesktopClipboardContent::Image)) => *final(self) == *old(self) && r == (ClipboardPaste::Image {
                    directory: paste_directory,
                }),
                Ok(None) => *final(self) == *old(self) && files_pasted(r, paste_directory, fallback),
                Err(e) => if fallback is Some {
                    *final(self) == *old(self) && files_pasted(r, paste_directory, fallback)
                } else {
                    r == ClipboardPaste::Nothing && *final(self) == (FileBrowser { error: Some(e), ..*old(self) })
                },
            },
    {
        match content {
            Ok(Some(DesktopClipboardContent::Files(selection))) => ClipboardPaste::Files { directory: paste_directory, selection },
            Ok(Some(DesktopClipboardContent::Text(text))) => ClipboardPaste::Text { directory: paste_directory, text },
            Ok(Some(DesktopClipboardContent::Image)) => ClipboardPaste::Image { directory: paste_directory },
            Ok(None) => match fallback {
                Some(selection) => ClipboardPaste::Files { directory: paste_directory, selection },
                None => ClipboardPaste::Nothing,
            },
            Err(error) => match fallback {
                Some(selection) => ClipboardPaste::Files { directory: paste_directory, selection },
                None => {
                    self.error = Some(error);
                    ClipboardPaste::Nothing
                },
            },
        }
    }
}

} // verus!
