use vstd::prelude::*;

use crate::browser::{BrowserPaneLayout, FileBrowser, StartupDirectoryValidationRequest};
use crate::drag::{directory_target_needs_fallback, resolved_drag_target, safe_target};
use crate::file_drop::next_generation;
use crate::deletion::paths_on_remote;
use crate::drop_target::{FileDropHit, SidebarBookmarkRowPointerTarget, resolved_drop_target};
use crate::fs_path::{PathModel, path_starts_with};
use crate::selection::{SelectionStep, stepped_target};
use crate::tabs::{adjacent_candidate, adjacent_tab};
use crate::model::{BrowserPaneId, DropTargetModel, SidebarBookmarkDropSlot};
use crate::panes::{moved_within, pane_ids};
use crate::session::{
    PaneSessionModel, pane_listed, restorable_tabs, restored_active_pane, restored_pane, restored_panes, sanitized_layout,
    session_of_pane,
};
use crate::sidebar_bookmarks::{
    LocationModel, clamped_slot, favorite_listed, favorites_of, location_paths, new_bookmark, reordered,
};
use crate::startup::validation_is_current;
use crate::startup_index::{
    ancestors_shown, common_seeds, parents_precede, default_root_kind, seed_paths, visible_ids, SeedModel, StartupIndexTreeEntry,
};
use crate::panes::{synced_panes, synced_tabs};
use crate::tab_state::{PaneModel, TabModel};

verus! {

/// A drop target made safe never aims a move at a directory that some
/// dragged item cannot usefully move into.
pub proof fn lemma_safe_target_is_safe(sources: Seq<PathModel>, target: Option<DropTargetModel>)
    ensures
        safe_target(sources, target) matches Some(DropTargetModel::Directory(d)) ==> !directory_target_needs_fallback(
            sources,
            d,
        ),
        safe_target(sources, safe_target(sources, target)) == safe_target(sources, target),
{
}

/// The directory under the released pointer decides where a drag lands,
/// whatever was hovered before.
pub proof fn lemma_release_directory_wins(
    sources: Seq<PathModel>,
    release: PathModel,
    hovered: Option<DropTargetModel>,
    fallback: Option<PathModel>,
)
    ensures
        resolved_drag_target(sources, Some(release), hovered, fallback) == Some(DropTargetModel::Directory(release)),
{
}

/// No two bookmarks share a path.
pub open spec fn distinct_paths(locations: Seq<LocationModel>) -> bool {
    forall|i: int, j: int| 0 <= i < j < locations.len() ==> locations[i].path != locations[j].path
}

/// Adding a directory that is not a bookmark yet, at any slot, keeps the
/// bookmarks free of duplicate paths.
pub proof fn lemma_bookmark_insert_keeps_paths_distinct(
    locations: Seq<LocationModel>,
    slot: SidebarBookmarkDropSlot,
    source: PathModel,
)
    requires
        distinct_paths(favorites_of(locations)),
        !favorite_listed(locations, source),
    ensures
        distinct_paths(
            favorites_of(locations).insert(clamped_slot(slot, favorites_of(locations).len()), new_bookmark(source)),
        ),
{
    broadcast use vstd::seq_lib::group_filter_ensures;
    broadcast use vstd::seq::Seq::lemma_filter_contains_rev;

    let favs = favorites_of(locations);
    let k = clamped_slot(slot, favs.len());
    let after = favs.insert(k, new_bookmark(source));
    assert forall|i: int| 0 <= i < favs.len() implies favs[i].path != source by {
        assert(favs.contains(favs[i]));
        let j = choose|j: int| 0 <= j < locations.len() && locations[j] == favs[i];
        assert(locations[j].kind.user_favorite());
    }
    assert forall|i: int, j: int| 0 <= i < j < after.len() implies after[i].path != after[j].path by {
        if i < k {
            if j < k {
                assert(after[i] == favs[i] && after[j] == favs[j]);
            } else if j == k {
                assert(after[i] == favs[i]);
            } else {
                assert(after[i] == favs[i] && after[j] == favs[j - 1]);
            }
        } else if i == k {
            assert(after[j] == favs[j - 1]);
        } else {
            assert(after[i] == favs[i - 1] && after[j] == favs[j - 1]);
        }
    }
}

/// Moving one element within a sequence keeps the same elements.
pub proof fn lemma_moved_within_keeps_elements<A>(s: Seq<A>, from: int, to: int)
    requires
        0 <= from < s.len(),
        0 <= to < s.len(),
    ensures
        moved_within(s, from, to).len() == s.len(),
        moved_within(s, from, to).to_multiset() == s.to_multiset(),
        moved_within(s, from, to)[to] == s[from],
{
    broadcast use vstd::seq_lib::group_to_multiset_ensures;
    broadcast use vstd::multiset::group_multiset_axioms;

    vstd::seq_lib::to_multiset_remove(s, from);
    vstd::seq_lib::to_multiset_insert(s.remove(from), to, s[from]);
    assert(s.to_multiset().count(s[from]) > 0);
    assert(s.to_multiset().remove(s[from]).insert(s[from]) =~= s.to_multiset());
}

/// Reordering tabs by a drag keeps the same tabs, with the dragged tab at
/// the entered tab's place.
pub proof fn lemma_tab_reorder_keeps_tabs(tabs: Seq<TabModel>, dragged: int, entered: int)
    requires
        0 <= dragged < tabs.len(),
        0 <= entered < tabs.len(),
    ensures
        moved_within(tabs, dragged, entered).to_multiset() == tabs.to_multiset(),
        moved_within(tabs, dragged, entered)[entered] == tabs[dragged],
{
    lemma_moved_within_keeps_elements(tabs, dragged, entered);
}

/// Reordering bookmarks by a drag keeps the same bookmarks, with the
/// dragged one at the entered row.
pub proof fn lemma_bookmark_reorder_keeps_bookmarks(favorites: Seq<LocationModel>, dragged: int, entered: int)
    requires
        0 <= dragged < favorites.len(),
        0 <= entered < favorites.len(),
    ensures
        reordered(favorites, dragged, entered).to_multiset() == favorites.to_multiset(),
        reordered(favorites, dragged, entered)[entered] == favorites[dragged],
{
    lemma_moved_within_keeps_elements(favorites, dragged, entered);
}

/// Each new generation differs from the one before it, also where the
/// counter wraps.
pub proof fn lemma_next_generation_differs(g: u64)
    ensures
        next_generation(g) != g,
{
}

/// While no directory check is pending, no finished check is current: a
/// late answer, after the field was edited or the check was invalidated,
/// changes nothing.
pub proof fn lemma_no_pending_check_is_current(browser: FileBrowser, request: StartupDirectoryValidationRequest)
    requires
        browser.pending_startup_directory_validation is None,
    ensures
        !validation_is_current(browser, request),
{
}

/// A check issued under an older generation is not current once a newer
/// check is pending.
pub proof fn lemma_replaced_check_is_stale(browser: FileBrowser, request: StartupDirectoryValidationRequest)
    requires
        browser.pending_startup_directory_validation matches Some(p) && p.generation == next_generation(
            request.generation,
        ),
    ensures
        !validation_is_current(browser, request),
{
}

/// A restored window's layout names only restored panes, and the pane it
/// shows is one of them.
pub proof fn lemma_restored_layout_names_restored_panes(layout: BrowserPaneLayout, panes: Seq<PaneModel>)
    requires
        panes.len() > 0,
    ensures
        ({
            let l = sanitized_layout(layout, panes);
            &&& pane_listed(panes, l.active_pane())
            &&& (l matches BrowserPaneLayout::Split { first, second, .. } ==> pane_listed(panes, first) && pane_listed(
                panes,
                second,
            ))
            &&& panes.contains(restored_active_pane(panes, l.active_pane()))
        }),
{
    let l = sanitized_layout(layout, panes);
    assert(pane_ids(panes)[0] == panes[0].id);
    pane_ids(panes).index_of_first_ensures(l.active_pane());
    match pane_ids(panes).index_of_first(l.active_pane()) {
        Some(j) => {
            assert(panes[j] == panes[j]);
        },
        None => {
            assert(panes[0] == panes[0]);
        },
    }
}

/// The roots offered for indexing by default are common user directories
/// (never home, the trash or a bookmark), each offered once, and selected.
pub proof fn lemma_common_seeds_are_distinct_default_roots(locations: Seq<LocationModel>)
    ensures
        forall|i: int, j: int| 0 <= i < j < common_seeds(locations).len() ==> common_seeds(locations)[i].path
            != common_seeds(locations)[j].path,
        forall|i: int|
            #![trigger common_seeds(locations)[i]]
            0 <= i < common_seeds(locations).len() ==> exists|k: int| 0 <= k < locations.len()
                && default_root_kind(#[trigger] locations[k].kind) && locations[k].path == common_seeds(locations)[i].path,
        forall|i: int| 0 <= i < common_seeds(locations).len() ==> (#[trigger] common_seeds(locations)[i]).selection
            == crate::startup_index::StartupIndexEntrySelection::Selected,
    decreases locations.len(),
{
    if locations.len() > 0 {
        let rest_locations = locations.drop_last();
        lemma_common_seeds_are_distinct_default_roots(rest_locations);
        let rest = common_seeds(rest_locations);
        let all = common_seeds(locations);
        let last = locations.last();
        assert forall|i: int|
            #![trigger all[i]]
            0 <= i < all.len() implies exists|k: int| 0 <= k < locations.len() && default_root_kind(
                #[trigger] locations[k].kind,
            ) && locations[k].path == all[i].path by {
            if i < rest.len() {
                assert(all[i] == rest[i]);
                let k = choose|k: int| 0 <= k < rest_locations.len() && default_root_kind(
                    #[trigger] rest_locations[k].kind,
                ) && rest_locations[k].path == rest[i].path;
                assert(locations[k] == rest_locations[k]);
            } else {
                assert(locations[locations.len() - 1] == last);
            }
        }
        if default_root_kind(last.kind) && !seed_paths(rest).contains(last.path) {
            assert forall|i: int| 0 <= i < rest.len() implies rest[i].path != last.path by {
                assert(seed_paths(rest)[i] == rest[i].path);
            }
        }
    }
}

/// When every directory is usable, every saved tab is restorable, in order.
pub proof fn lemma_usable_tabs_all_restorable(tabs: Seq<TabModel>, usable: Seq<bool>)
    requires
        usable.len() == tabs.len(),
        forall|j: int| 0 <= j < usable.len() ==> #[trigger] usable[j],
    ensures
        restorable_tabs(tabs, usable) == tabs,
    decreases tabs.len(),
{
    if tabs.len() > 0 {
        let n = tabs.len() - 1;
        lemma_usable_tabs_all_restorable(tabs.drop_last(), usable.take(n as int));
        assert(usable[n as int]);
        assert(tabs.drop_last().push(tabs.last()) =~= tabs);
    }
}

/// Every flag of every pane says its directory is usable.
pub open spec fn all_usable(sessions: Seq<PaneSessionModel>, flags: Seq<Seq<bool>>) -> bool {
    &&& flags.len() == sessions.len()
    &&& forall|i: int| 0 <= i < flags.len() ==> (#[trigger] flags[i]).len() == sessions[i].tabs.len()
    &&& forall|i: int, j: int| 0 <= i < flags.len() && 0 <= j < flags[i].len() ==> #[trigger] flags[i][j]
}

/// Restoring saved panes whose directories are all usable gives back one
/// pane per saved pane, in order: each is the saved pane rebuilt from all
/// its tabs. Saved panes without tabs are left out, as they restore nothing.
pub proof fn lemma_full_restore_gives_back_saved_panes(sessions: Seq<PaneSessionModel>, flags: Seq<Seq<bool>>)
    requires
        all_usable(sessions, flags),
        forall|i: int| 0 <= i < sessions.len() ==> (#[trigger] sessions[i]).tabs.len() > 0,
    ensures
        restored_panes(sessions, flags).len() == sessions.len(),
        forall|i: int|
            0 <= i < sessions.len() ==> #[trigger] restored_panes(sessions, flags)[i] == restored_pane(
                sessions[i].id,
                sessions[i].tabs,
                sessions[i].active_tab_id,
            ),
    decreases sessions.len(),
{
    if sessions.len() > 0 {
        let n = sessions.len() - 1;
        let front = sessions.drop_last();
        let front_flags = flags.take(n as int);
        assert forall|i: int, j: int| 0 <= i < front_flags.len() && 0 <= j < front_flags[i].len() implies #[trigger] front_flags[i][j] by {
            assert(front_flags[i] == flags[i]);
            assert(flags[i][j]);
        }
        assert forall|i: int| 0 <= i < front.len() implies (#[trigger] front[i]).tabs.len() > 0 by {
            assert(front[i] == sessions[i]);
        }
        lemma_full_restore_gives_back_saved_panes(front, front_flags);
        let last = sessions.last();
        assert forall|j: int| 0 <= j < flags[n as int].len() implies #[trigger] flags[n as int][j] by {}
        lemma_usable_tabs_all_restorable(last.tabs, flags[n as int]);
        assert(sessions[n as int] == last);
        let rest = restored_panes(front, front_flags);
        assert forall|i: int| 0 <= i < sessions.len() implies #[trigger] restored_panes(sessions, flags)[i] == restored_pane(
            sessions[i].id,
            sessions[i].tabs,
            sessions[i].active_tab_id,
        ) by {
            if i < n {
                assert(front[i] == sessions[i]);
                assert(rest[i] == restored_pane(front[i].id, front[i].tabs, front[i].active_tab_id));
            }
        }
    }
}

/// What a session save writes, a restore gives back: saving a window whose
/// panes each have a tab and restoring it while all its directories are
/// usable yields the same panes, by id and in order, each rebuilt from all
/// of its saved tabs, and keeps the saved layout whenever that layout names
/// only saved panes.
pub proof fn lemma_saved_session_restores_its_panes(browser: FileBrowser, flags: Seq<Seq<bool>>)
    requires
        ({
            let saved = synced_panes(browser, synced_tabs(browser));
            &&& all_usable(saved.map_values(|p: PaneModel| session_of_pane(p)), flags)
            &&& forall|i: int| 0 <= i < saved.len() ==> (#[trigger] saved[i]).tabs.len() > 0
        }),
    ensures
        ({
            let saved = synced_panes(browser, synced_tabs(browser));
            let restored = restored_panes(saved.map_values(|p: PaneModel| session_of_pane(p)), flags);
            &&& pane_ids(restored) == pane_ids(saved)
            &&& forall|i: int|
                0 <= i < saved.len() ==> #[trigger] restored[i] == restored_pane(
                    saved[i].id,
                    saved[i].tabs,
                    saved[i].active_tab_id,
                )
            &&& (layout_names_only(browser.pane_layout, saved) ==> sanitized_layout(browser.pane_layout, restored)
                == browser.pane_layout)
        }),
{
    let saved = synced_panes(browser, synced_tabs(browser));
    let sessions = saved.map_values(|p: PaneModel| session_of_pane(p));
    assert forall|i: int| 0 <= i < sessions.len() implies (#[trigger] sessions[i]).tabs.len() > 0 by {
        assert(sessions[i] == session_of_pane(saved[i]));
    }
    lemma_full_restore_gives_back_saved_panes(sessions, flags);
    let restored = restored_panes(sessions, flags);
    assert forall|i: int| 0 <= i < saved.len() implies #[trigger] restored[i] == restored_pane(
        saved[i].id,
        saved[i].tabs,
        saved[i].active_tab_id,
    ) by {
        assert(sessions[i] == session_of_pane(saved[i]));
    }
    assert forall|i: int| 0 <= i < saved.len() implies #[trigger] pane_ids(restored)[i] == pane_ids(saved)[i] by {
        assert(sessions[i] == session_of_pane(saved[i]));
        assert(restored[i] == restored_pane(saved[i].id, saved[i].tabs, saved[i].active_tab_id));
    }
    assert(pane_ids(restored) =~= pane_ids(saved));
}

/// Every pane the layout names is one of `panes`.
pub open spec fn layout_names_only(layout: BrowserPaneLayout, panes: Seq<PaneModel>) -> bool {
    match layout {
        BrowserPaneLayout::Single { active } => pane_listed(panes, active),
        BrowserPaneLayout::Split { first, second, active, .. } => pane_listed(panes, first) && pane_listed(panes, second)
            && pane_listed(panes, active),
    }
}

/// A path under any of the remote mount points, not only the first, is on
/// a remote mount.
pub proof fn lemma_every_mount_point_makes_paths_remote(browser: FileBrowser, path: PathModel, i: int)
    requires
        0 <= i < browser.remote_mount_points@.len(),
        path_starts_with(path, browser.remote_mount_points@[i]@),
    ensures
        browser.on_remote_mount(path),
{
}

/// A path under none of the remote mount points is local.
pub proof fn lemma_paths_off_every_mount_point_are_local(browser: FileBrowser, path: PathModel)
    requires
        forall|i: int| 0 <= i < browser.remote_mount_points@.len()
            ==> !path_starts_with(path, #[trigger] browser.remote_mount_points@[i]@),
    ensures
        !browser.on_remote_mount(path),
{
}

/// Items that each lie under some remote mount point (item `k` under mount
/// point `mounts[k]`) are all network items and none is local, so trashing
/// them asks to delete exactly those items for good and sends nothing to the
/// trash.
pub proof fn lemma_items_on_mount_points_are_not_trashed(browser: FileBrowser, paths: Seq<PathModel>, mounts: Seq<int>)
    requires
        mounts.len() == paths.len(),
        forall|k: int| 0 <= k < paths.len() ==> 0 <= #[trigger] mounts[k] < browser.remote_mount_points@.len()
            && path_starts_with(paths[k], browser.remote_mount_points@[mounts[k]]@),
    ensures
        paths_on_remote(browser, paths, true) == paths,
        paths_on_remote(browser, paths, false).len() == 0,
    decreases paths.len(),
{
    reveal(Seq::filter);
    if paths.len() > 0 {
        let rest = paths.drop_last();
        let rest_mounts = mounts.drop_last();
        assert forall|k: int| 0 <= k < rest.len() implies 0 <= #[trigger] rest_mounts[k] < browser.remote_mount_points@.len()
            && path_starts_with(rest[k], browser.remote_mount_points@[rest_mounts[k]]@) by {
            assert(rest[k] == paths[k] && rest_mounts[k] == mounts[k]);
        }
        lemma_items_on_mount_points_are_not_trashed(browser, rest, rest_mounts);
        let last = paths.len() - 1;
        assert(mounts[last] == mounts.last());
        lemma_every_mount_point_makes_paths_remote(browser, paths[last], mounts[last]);
        assert(paths[last] == paths.last());
        reveal(Seq::filter);
        assert(paths_on_remote(browser, paths, true) == paths_on_remote(browser, rest, true).push(paths.last()));
        assert(paths_on_remote(browser, paths, false) == paths_on_remote(browser, rest, false));
        assert(rest.push(paths.last()) =~= paths);
    }
}

/// The two edges of a bookmark row give different slots for a dragged
/// directory: its top edge the row's own index, its bottom edge the next one.
pub proof fn lemma_bookmark_row_edges_give_their_own_slots(hit: FileDropHit, source: PathModel, index: usize)
    requires
        hit.tabs@.len() == 0,
        !hit.empty_sidebar_bookmarks,
        hit.sidebar_directories@.len() > 0,
        hit.sidebar_directories@.last().favorite_index == Some(index),
        index < usize::MAX,
    ensures
        hit.sidebar_directories@.last().row_target == SidebarBookmarkRowPointerTarget::InsertBefore
            ==> resolved_drop_target(hit, Some(source))
                == Some(DropTargetModel::SidebarBookmarkSlot(SidebarBookmarkDropSlot::Insert { index })),
        hit.sidebar_directories@.last().row_target == SidebarBookmarkRowPointerTarget::InsertAfter
            ==> resolved_drop_target(hit, Some(source))
                == Some(DropTargetModel::SidebarBookmarkSlot(SidebarBookmarkDropSlot::Insert { index: (index + 1) as usize })),
{
}

/// The open tab nearest before `j` and up to the closing tab.
proof fn lemma_last_candidate_before(browser: FileBrowser, closing_index: int, closing_tab_id: usize, j: int) -> (m: int)
    requires
        0 <= j < closing_index <= browser.tabs@.len(),
        adjacent_candidate(browser, browser.tabs@[j], closing_tab_id),
    ensures
        j <= m < closing_index,
        adjacent_candidate(browser, browser.tabs@[m], closing_tab_id),
        forall|k: int| m < k < closing_index ==> !adjacent_candidate(browser, #[trigger] browser.tabs@[k], closing_tab_id),
    decreases closing_index - j,
{
    if exists|k: int| j < k < closing_index && adjacent_candidate(browser, #[trigger] browser.tabs@[k], closing_tab_id) {
        let k = choose|k: int| j < k < closing_index && adjacent_candidate(browser, #[trigger] browser.tabs@[k], closing_tab_id);
        lemma_last_candidate_before(browser, closing_index, closing_tab_id, k)
    } else {
        j
    }
}

/// The open tab nearest after the closing tab, up to `j`.
proof fn lemma_first_candidate_after(browser: FileBrowser, closing_index: int, closing_tab_id: usize, j: int) -> (m: int)
    requires
        0 <= closing_index < j < browser.tabs@.len(),
        adjacent_candidate(browser, browser.tabs@[j], closing_tab_id),
    ensures
        closing_index < m <= j,
        adjacent_candidate(browser, browser.tabs@[m], closing_tab_id),
        forall|k: int| closing_index < k < m ==> !adjacent_candidate(browser, #[trigger] browser.tabs@[k], closing_tab_id),
    decreases j - closing_index,
{
    if exists|k: int| closing_index < k < j && adjacent_candidate(browser, #[trigger] browser.tabs@[k], closing_tab_id) {
        let k = choose|k: int| closing_index < k < j && adjacent_candidate(browser, #[trigger] browser.tabs@[k], closing_tab_id);
        lemma_first_candidate_after(browser, closing_index, closing_tab_id, k)
    } else {
        j
    }
}

/// When an open tab lies before the closing one, the tab that takes over is
/// an open tab before it with no open tab in between: the nearest one, not
/// the first of the bar.
pub proof fn lemma_nearest_open_tab_before_takes_over(browser: FileBrowser, closing_index: int, closing_tab_id: usize, j: int)
    requires
        0 <= j < closing_index < browser.tabs@.len(),
        browser.tabs@[j].id != closing_tab_id,
        !browser.closing_tab(browser.tabs@[j].id),
    ensures
        exists|m: int| {
            &&& j <= m < closing_index
            &&& adjacent_tab(browser, closing_index, closing_tab_id) == Some(#[trigger] browser.tabs@[m].id)
            &&& browser.tabs@[m].id != closing_tab_id
            &&& !browser.closing_tab(browser.tabs@[m].id)
            &&& forall|k: int| m < k < closing_index ==> (#[trigger] browser.tabs@[k].id == closing_tab_id
                || browser.closing_tab(browser.tabs@[k].id))
        },
{
    let w = lemma_last_candidate_before(browser, closing_index, closing_tab_id, j);
    assert(adjacent_candidate(browser, browser.tabs@[w], closing_tab_id));
    let m = choose|m: int|
        0 <= m < closing_index && adjacent_candidate(browser, #[trigger] browser.tabs@[m], closing_tab_id)
            && forall|k: int| m < k < closing_index ==> !adjacent_candidate(browser, #[trigger] browser.tabs@[k], closing_tab_id);
    if m < w {
        assert(!adjacent_candidate(browser, browser.tabs@[w], closing_tab_id));
    }
    if m > w {
        assert(!adjacent_candidate(browser, browser.tabs@[m], closing_tab_id));
    }
    assert(m == w);
    assert forall|k: int| m < k < closing_index implies (#[trigger] browser.tabs@[k].id == closing_tab_id
        || browser.closing_tab(browser.tabs@[k].id)) by {
        assert(!adjacent_candidate(browser, browser.tabs@[k], closing_tab_id));
    }
}

/// When no open tab lies before the closing one but one lies after it, the
/// tab that takes over is the nearest open tab after it.
pub proof fn lemma_nearest_open_tab_after_takes_over(browser: FileBrowser, closing_index: int, closing_tab_id: usize, j: int)
    requires
        0 <= closing_index < j < browser.tabs@.len(),
        browser.tabs@[j].id != closing_tab_id,
        !browser.closing_tab(browser.tabs@[j].id),
        forall|k: int| 0 <= k < closing_index ==> (#[trigger] browser.tabs@[k].id == closing_tab_id
            || browser.closing_tab(browser.tabs@[k].id)),
    ensures
        exists|m: int| {
            &&& closing_index < m <= j
            &&& adjacent_tab(browser, closing_index, closing_tab_id) == Some(#[trigger] browser.tabs@[m].id)
            &&& browser.tabs@[m].id != closing_tab_id
            &&& !browser.closing_tab(browser.tabs@[m].id)
            &&& forall|k: int| closing_index < k < m ==> (#[trigger] browser.tabs@[k].id == closing_tab_id
                || browser.closing_tab(browser.tabs@[k].id))
        },
{
    let w = lemma_first_candidate_after(browser, closing_index, closing_tab_id, j);
    assert(adjacent_candidate(browser, browser.tabs@[w], closing_tab_id));
    assert(!exists|k: int| 0 <= k < closing_index && adjacent_candidate(browser, #[trigger] browser.tabs@[k], closing_tab_id)) by {
        assert forall|k: int| 0 <= k < closing_index implies !adjacent_candidate(browser, #[trigger] browser.tabs@[k], closing_tab_id) by {
            assert(browser.tabs@[k].id == closing_tab_id || browser.closing_tab(browser.tabs@[k].id));
        }
    }
    let m = choose|m: int|
        closing_index < m < browser.tabs@.len() && adjacent_candidate(browser, #[trigger] browser.tabs@[m], closing_tab_id)
            && forall|k: int| closing_index < k < m ==> !adjacent_candidate(browser, #[trigger] browser.tabs@[k], closing_tab_id);
    if m < w {
        assert(!adjacent_candidate(browser, browser.tabs@[m], closing_tab_id));
    }
    if m > w {
        assert(!adjacent_candidate(browser, browser.tabs@[w], closing_tab_id));
    }
    assert(m == w);
    assert forall|k: int| closing_index < k < m implies (#[trigger] browser.tabs@[k].id == closing_tab_id
        || browser.closing_tab(browser.tabs@[k].id)) by {
        assert(!adjacent_candidate(browser, browser.tabs@[k], closing_tab_id));
    }
}

/// A keyboard step from the entry at position `i` (its first occurrence)
/// moves one entry back or forward, staying at the ends.
pub proof fn lemma_keyboard_step_moves_one_entry(paths: Seq<PathModel>, i: int)
    requires
        0 <= i < paths.len(),
        forall|k: int| 0 <= k < i ==> #[trigger] paths[k] != paths[i],
    ensures
        stepped_target(paths, Some(paths[i]), SelectionStep::Previous) == Some(paths[if i > 0 { i - 1 } else { 0 }]),
        stepped_target(paths, Some(paths[i]), SelectionStep::Next)
            == Some(paths[if i + 1 < paths.len() { i + 1 } else { i }]),
{
    paths.index_of_first_ensures(paths[i]);
}

/// With nothing selected among the entries, a step back selects the last
/// entry and a step forward the first.
pub proof fn lemma_keyboard_step_without_selection(paths: Seq<PathModel>, selected: PathModel)
    requires
        paths.len() > 0,
        !paths.contains(selected),
    ensures
        stepped_target(paths, Some(selected), SelectionStep::Previous) == Some(paths[paths.len() - 1]),
        stepped_target(paths, Some(selected), SelectionStep::Next) == Some(paths[0]),
        stepped_target(paths, None, SelectionStep::Previous) == Some(paths[paths.len() - 1]),
        stepped_target(paths, None, SelectionStep::Next) == Some(paths[0]),
{
    paths.index_of_first_ensures(selected);
}

/// `chain` is the line of ancestors of a row whose parent is `parent`: each
/// listed, each the parent of the one before.
pub open spec fn is_ancestor_chain(entries: Seq<StartupIndexTreeEntry>, parent: Option<usize>, chain: Seq<usize>) -> bool {
    &&& chain.len() > 0
    &&& parent == Some(chain[0])
    &&& forall|k: int| 0 <= k < chain.len() ==> #[trigger] chain[k] < entries.len()
    &&& forall|k: int| 0 <= k < chain.len() - 1 ==> entries[#[trigger] chain[k] as int].parent == Some(chain[k + 1])
}

/// A row under a collapsed ancestor, at any height and not only its parent,
/// is hidden.
pub proof fn lemma_collapsed_ancestor_hides_row(entries: Seq<StartupIndexTreeEntry>, parent: Option<usize>, chain: Seq<usize>)
    requires
        is_ancestor_chain(entries, parent, chain),
        !entries[chain.last() as int].is_expanded,
        !entries[chain.last() as int].is_opening,
    ensures
        !ancestors_shown(entries, parent),
    decreases chain.len(),
{
    let p = chain[0];
    let e = entries[p as int];
    if chain.len() > 1 {
        let rest = chain.drop_first();
        assert(rest.last() == chain.last());
        assert forall|k: int| 0 <= k < rest.len() implies #[trigger] rest[k] < entries.len() by {
            assert(rest[k] == chain[k + 1]);
        }
        assert forall|k: int| 0 <= k < rest.len() - 1 implies entries[#[trigger] rest[k] as int].parent == Some(rest[k + 1]) by {
            assert(rest[k] == chain[k + 1]);
            assert(rest[k + 1] == chain[k + 2]);
        }
        assert(e.parent == Some(chain[1]));
        lemma_collapsed_ancestor_hides_row(entries, e.parent, rest);
    }
}

/// A row whose ancestors, up to a root, are all open or opening shows; a
/// root row always shows.
pub proof fn lemma_open_ancestors_show_row(entries: Seq<StartupIndexTreeEntry>, parent: Option<usize>, chain: Seq<usize>)
    requires
        parents_precede(entries),
        parent is None || {
            &&& is_ancestor_chain(entries, parent, chain)
            &&& entries[chain.last() as int].parent is None
            &&& forall|k: int| 0 <= k < chain.len()
                ==> (#[trigger] entries[chain[k] as int]).is_expanded || entries[chain[k] as int].is_opening
        },
    ensures
        ancestors_shown(entries, parent),
    decreases chain.len(),
{
    if parent is Some {
        let p = chain[0];
        let e = entries[p as int];
        assert((e.is_expanded || e.is_opening)) by {
            assert(entries[chain[0] as int] == e);
        }
        if chain.len() > 1 {
            let rest = chain.drop_first();
            assert(rest.last() == chain.last());
            assert forall|k: int| 0 <= k < rest.len() implies #[trigger] rest[k] < entries.len() by {
                assert(rest[k] == chain[k + 1]);
            }
            assert forall|k: int| 0 <= k < rest.len() - 1 implies entries[#[trigger] rest[k] as int].parent == Some(rest[k + 1]) by {
                assert(rest[k] == chain[k + 1]);
                assert(rest[k + 1] == chain[k + 2]);
            }
            assert forall|k: int| 0 <= k < rest.len()
                implies (#[trigger] entries[rest[k] as int]).is_expanded || entries[rest[k] as int].is_opening by {
                assert(rest[k] == chain[k + 1]);
            }
            assert(e.parent == Some(chain[1]));
            assert(chain[1] < p) by {
                assert(entries[p as int].parent == Some(chain[1]));
            }
            lemma_open_ancestors_show_row(entries, e.parent, rest);
        } else {
            assert(e.parent is None);
        }
    }
}

/// The ids that show come from rows whose ancestors are all shown.
proof fn lemma_visible_ids_come_from_shown_rows(entries: Seq<StartupIndexTreeEntry>, all: Seq<StartupIndexTreeEntry>, x: usize)
    requires
        visible_ids(entries, all).contains(x),
    ensures
        exists|m: int| 0 <= m < entries.len() && #[trigger] entries[m].id == x && ancestors_shown(all, entries[m].parent),
    decreases entries.len(),
{
    let rest = entries.drop_last();
    let last = entries.len() - 1;
    assert(entries[last] == entries.last());
    if visible_ids(rest, all).contains(x) {
        lemma_visible_ids_come_from_shown_rows(rest, all, x);
        let m = choose|m: int| 0 <= m < rest.len() && #[trigger] rest[m].id == x && ancestors_shown(all, rest[m].parent);
        assert(entries[m] == rest[m]);
    } else {
        assert(ancestors_shown(all, entries.last().parent) && entries.last().id == x);
    }
}

/// In a tree whose rows have distinct ids, a row under a collapsed ancestor
/// is not among the rows that show.
pub proof fn lemma_collapsed_ancestor_hides_row_from_visible_ids(
    entries: Seq<StartupIndexTreeEntry>,
    n: int,
    chain: Seq<usize>,
)
    requires
        0 <= n < entries.len(),
        forall|a: int, b: int| 0 <= a < b < entries.len() ==> #[trigger] entries[a].id != #[trigger] entries[b].id,
        is_ancestor_chain(entries, entries[n].parent, chain),
        !entries[chain.last() as int].is_expanded,
        !entries[chain.last() as int].is_opening,
    ensures
        !visible_ids(entries, entries).contains(entries[n].id),
{
    lemma_collapsed_ancestor_hides_row(entries, entries[n].parent, chain);
    if visible_ids(entries, entries).contains(entries[n].id) {
        lemma_visible_ids_come_from_shown_rows(entries, entries, entries[n].id);
        let m = choose|m: int| 0 <= m < entries.len() && #[trigger] entries[m].id == entries[n].id
            && ancestors_shown(entries, entries[m].parent);
        if m < n {
            assert(entries[m].id != entries[n].id);
        } else if m > n {
            assert(entries[n].id != entries[m].id);
        }
    }
}

} // verus!
