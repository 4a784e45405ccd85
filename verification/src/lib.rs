//! Decision logic of a multi-pane file browser: paths, drag and drop
//! targets, drop sessions, tabs and panes, sidebar bookmarks, startup and
//! session restore, clipboard, deletion and shortcut routing.

pub mod fs_path;
pub mod model;
pub mod drag;
pub mod drop_target;
pub mod browser;
pub mod file_drop;
pub mod tabs;
pub mod tab_state;
pub mod panes;
pub mod actions;
pub mod session;
pub mod text;
pub mod startup;
pub mod startup_index;
pub mod scroll;
pub mod selection;
pub mod laws;
pub mod sidebar_bookmarks;
pub mod conflict;
pub mod spring;
pub mod drag_session;
pub mod startup_flow;
pub mod columns;
pub mod preview;
pub mod deletion;
pub mod shortcuts;
pub mod clipboard;
pub mod devices;
pub mod wayland_source;
pub mod wayland_target;
pub mod breadcrumb_drop;
pub mod marquee;
pub mod drop_areas;
