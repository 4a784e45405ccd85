use vstd::prelude::*;

use crate::actions::content_shortcuts_enabled;
use crate::browser::FileBrowser;

verus! {

/// Who may act on a file-view shortcut's key before the file view does.
#[derive(Debug, Clone, Copy, PartialEq, Eq, Structural)]
pub enum FileBrowserShortcutOwnership {
    /// The key is Delete: a widget that took the event keeps it; otherwise
    /// the file view acts.
    CapturedDeleteEvent,
    /// A focused text field may want the key: ask it first.
    FocusedTextInputProbe,
}

/// Where a shortcut's key belongs.
#[derive(Debug, Clone, Copy, PartialEq, Eq, Structural)]
pub enum ShortcutRoutingContext {
    /// The whole application, whatever has focus.
    Application,
    /// The file view, when nothing else claims the key.
    FileBrowserContent(FileBrowserShortcutOwnership),
}

/// Where a pressed shortcut goes.
#[derive(Debug, Clone, Copy, PartialEq, Eq, Structural)]
pub enum KeyboardShortcutRoute {
    InvokeApplication,
    InvokeFileBrowserContent,
    QueryTextInputFocus,
    CapturedPreview,
    Stop,
}

/// The route of a shortcut: a preview toggle whose key a widget took
/// (`captured`) goes to the captured preview; an application shortcut is
/// carried out; a file-view shortcut whose key a widget took stops; an
/// untaken Delete goes to the file view; any other untaken file-view key
/// first asks whether a text field has focus.
pub open spec fn shortcut_route(preview_toggle: bool, context: ShortcutRoutingContext, captured: bool) -> KeyboardShortcutRoute {
    if preview_toggle && captured {
        KeyboardShortcutRoute::CapturedPreview
    } else {
        match context {
            ShortcutRoutingContext::Application => KeyboardShortcutRoute::InvokeApplication,
            ShortcutRoutingContext::FileBrowserContent(ownership) => if captured {
                KeyboardShortcutRoute::Stop
            } else {
                match ownership {
                    FileBrowserShortcutOwnership::CapturedDeleteEvent => KeyboardShortcutRoute::InvokeFileBrowserContent,
                    FileBrowserShortcutOwnership::FocusedTextInputProbe => KeyboardShortcutRoute::QueryTextInputFocus,
                }
            },
        }
    }
}

/// The route of a shortcut: see [`shortcut_route`].
pub fn keyboard_shortcut_route(preview_toggle: bool, context: ShortcutRoutingContext, captured: bool) -> (r: KeyboardShortcutRoute)
    ensures
        r == shortcut_route(preview_toggle, context, captured),
{
    if preview_toggle && captured {
        return KeyboardShortcutRoute::CapturedPreview;
    }
    match context {
        ShortcutRoutingContext::Application => KeyboardShortcutRoute::InvokeApplication,
        ShortcutRoutingContext::FileBrowserContent(ownership) => {
            if captured {
                KeyboardShortcutRoute::Stop
            } else {
                match ownership {
                    FileBrowserShortcutOwnership::CapturedDeleteEvent => KeyboardShortcutRoute::InvokeFileBrowserContent,
                    FileBrowserShortcutOwnership::FocusedTextInputProbe => KeyboardShortcutRoute::QueryTextInputFocus,
                }
            }
        },
    }
}

impl FileBrowser {
    /// Where a pressed shortcut goes in the browser's present state: its
    /// route ([`shortcut_route`]), except that a file-view shortcut stops
    /// while a prompt, menu or other surface holds the keyboard
    /// ([`content_shortcuts_enabled`]).
    pub fn route_keyboard_shortcut(&self, preview_toggle: bool, context: ShortcutRoutingContext, captured: bool) -> (r: KeyboardShortcutRoute)
        ensures
            r == if shortcut_route(preview_toggle, context, captured) == KeyboardShortcutRoute::InvokeFileBrowserContent
                && !content_shortcuts_enabled(*self) {
                KeyboardShortcutRoute::Stop
            } else {
                shortcut_route(preview_toggle, context, captured)
            },
    {
        let route = keyboard_shortcut_route(preview_toggle, context, captured);
        if route == KeyboardShortcutRoute::InvokeFileBrowserContent && !self.file_browser_content_shortcuts_enabled() {
            KeyboardShortcutRoute::Stop
        } else {
            route
        }
    }
}

} // verus!
