# file_browser_core

The decision logic of a multi-pane Linux file browser, written in Verus and
proved against its contracts: paths, drag-and-drop targets and drop
sessions, tabs and split panes, sidebar bookmarks, startup and session
restore, clipboard and deletion requests, keyboard shortcut routing.

- `src/` — the verified library. Each module states its model with spec
  functions and views; `src/laws.rs` holds the properties that span
  several operations (a saved session restores its panes, reorders keep
  their elements, stale checks change nothing, ...).
- `tests/` — scenarios run against the compiled library.
- `app/` — the thin layer that touches the machine: platform paths, the
  file system, the user's directories and the clock.

Pointer geometry, animation timing and rendering stay with the user
interface; the library takes their results (a hit target, a moved-far-enough
flag, elapsed milliseconds) as plain values.
