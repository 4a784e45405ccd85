use vstd::prelude::*;

use crate::browser::FileBrowser;
use crate::drag::paths_view;
use crate::file_drop::{FileDropSessionPhase, FileDropSessionState};
use crate::model::{DropTargetModel, FileDropTarget, FileKind, SidebarBookmarkDropSlot, opt_path_view, opt_target_view};
use crate::fs_path::{FsPath, PathModel, path_file_name, path_text_of};

verus! {

/// The kind of a sidebar location.
#[derive(Debug, Clone, Copy, PartialEq, Eq, Structural)]
pub enum SidebarLocationKind {
    Home,
    Desktop,
    Documents,
    Downloads,
    Pictures,
    Videos,
    Music,
    Trash,
    Bookmark,
}

impl SidebarLocationKind {
    /// Bookmarks are the user's favorites; the fixed places are not.
    pub open spec fn user_favorite(self) -> bool {
        self == SidebarLocationKind::Bookmark
    }

    /// Bookmarks are the user's favorites; the fixed places are not.
    pub fn is_user_favorite(&self) -> (r: bool)
        ensures
            r == self.user_favorite(),
    {
        *self == SidebarLocationKind::Bookmark
    }
}

/// A place listed in the sidebar.
#[derive(Debug, Clone, PartialEq, Eq)]
pub struct SidebarLocation {
    pub label: String,
    pub path: FsPath,
    pub kind: SidebarLocationKind,
}

/// The meaning of a [`SidebarLocation`].
pub struct LocationModel {
    pub label: Seq<char>,
    pub path: PathModel,
    pub kind: SidebarLocationKind,
}

impl View for SidebarLocation {
    type V = LocationModel;

    open spec fn view(&self) -> LocationModel {
        LocationModel { label: self.label@, path: self.path@, kind: self.kind }
    }
}

impl SidebarLocation {
    /// A copy of this location.
    pub fn copy(&self) -> (r: SidebarLocation)
        ensures
            r@ == self@,
    {
        SidebarLocation { label: self.label.clone(), path: self.path.copy(), kind: self.kind }
    }
}

/// The meanings of a list of locations.
pub open spec fn locations_view(locations: Seq<SidebarLocation>) -> Seq<LocationModel> {
    locations.map_values(|l: SidebarLocation| l@)
}

/// The locations that are bookmarks, in their order.
pub open spec fn favorites_of(locations: Seq<LocationModel>) -> Seq<LocationModel> {
    locations.filter(|l: LocationModel| l.kind.user_favorite())
}

/// The locations that are fixed places, in their order.
pub open spec fn fixed_of(locations: Seq<LocationModel>) -> Seq<LocationModel> {
    locations.filter(|l: LocationModel| !l.kind.user_favorite())
}

/// The paths of a list of locations.
pub open spec fn location_paths(locations: Seq<LocationModel>) -> Seq<PathModel> {
    locations.map_values(|l: LocationModel| l.path)
}

/// The name a new bookmark is shown under: the directory's own name, or the
/// whole path where it has none.
pub open spec fn bookmark_label(path: PathModel) -> Seq<char> {
    match path_file_name(path) {
        Some(name) => if name.len() > 0 { name } else { path_text_of(path) },
        None => path_text_of(path),
    }
}

/// The name a new bookmark is shown under: see [`bookmark_label`].
pub fn sidebar_bookmark_label(path: &FsPath) -> (r: String)
    ensures
        r@ == bookmark_label(path@),
{
    match path.file_name() {
        Some(name) => {
            if name.unicode_len() > 0 {
                name
            } else {
                path.path_text()
            }
        },
        None => path.path_text(),
    }
}

/// The paths of the bookmarks that a dragged bookmark passes over when it
/// moves from `dragged_index` to `entered_index`: those after it up to the
/// entered row when it moves down, those from the entered row up to it when
/// it moves up.
pub fn shifted_sidebar_bookmark_paths(
    favorites: &[SidebarLocation],
    dragged_index: usize,
    entered_index: usize,
) -> (r: Vec<FsPath>)
    requires
        dragged_index < entered_index ==> entered_index < favorites@.len(),
        dragged_index >= entered_index ==> dragged_index <= favorites@.len(),
    ensures
        paths_view(r@) == if dragged_index < entered_index {
            location_paths(locations_view(favorites@)).subrange(dragged_index + 1, entered_index + 1)
        } else {
            location_paths(locations_view(favorites@)).subrange(entered_index as int, dragged_index as int)
        },
{
    let n = favorites.len();
    let (start, end) = if dragged_index < entered_index {
        (dragged_index + 1, entered_index + 1)
    } else {
        (entered_index, dragged_index)
    };
    let ghost all = location_paths(locations_view(favorites@));
    let mut r: Vec<FsPath> = Vec::new();
    let mut i: usize = start;
    while i < end
        invariant
            start <= i <= end,
            end <= favorites@.len(),
            all == location_paths(locations_view(favorites@)),
            paths_view(r@) == all.subrange(start as int, i as int),
        decreases end - i,
    {
        let ghost prev = r@;
        r.push(favorites[i].path.copy());
        proof {
            assert(all[i as int] == favorites@[i as int].path@);
            assert(r@ == prev.push(r@.last()));
            assert(paths_view(r@) =~= paths_view(prev).push(all[i as int]));
            assert(paths_view(r@) =~= all.subrange(start as int, i + 1));
        }
        i = i + 1;
    }
    r
}

/// A press on a bookmark row, and whether it has become a reordering drag.
#[derive(Debug, Clone, PartialEq, Eq)]
pub struct SidebarBookmarkDragState {
    pub path: FsPath,
    pub source_index: usize,
    pub dragging: bool,
    pub order_changed: bool,
}


/// One more location read keeps or skips it by kind.
proof fn lemma_favorites_step(s: Seq<LocationModel>, i: int)
    requires
        0 <= i < s.len(),
    ensures
        favorites_of(s.take(i + 1)) == if s[i].kind.user_favorite() {
            favorites_of(s.take(i)).push(s[i])
        } else {
            favorites_of(s.take(i))
        },
        fixed_of(s.take(i + 1)) == if s[i].kind.user_favorite() {
            fixed_of(s.take(i))
        } else {
            fixed_of(s.take(i)).push(s[i])
        },
{
    reveal(Seq::filter);
    assert(s.take(i + 1).drop_last() =~= s.take(i));
    assert(s.take(i + 1).last() == s[i]);
}

/// `path` is one of the bookmarks among `locations`.
pub open spec fn favorite_listed(locations: Seq<LocationModel>, path: PathModel) -> bool {
    exists|i: int| 0 <= i < locations.len() && #[trigger] locations[i].kind.user_favorite() && locations[i].path == path
}

/// The bookmark that a drop of `source` adds.
pub open spec fn new_bookmark(source: PathModel) -> LocationModel {
    LocationModel { label: bookmark_label(source), path: source, kind: SidebarLocationKind::Bookmark }
}

/// The slot index clamped to the end of a list of `len` bookmarks.
pub open spec fn clamped_slot(slot: SidebarBookmarkDropSlot, len: nat) -> int {
    match slot {
        SidebarBookmarkDropSlot::Insert { index } => if index < len { index as int } else { len as int },
    }
}

impl FileBrowser {
    /// The bookmarks among the sidebar's locations, in their order.
    pub fn sidebar_favorite_locations(&self) -> (r: Vec<SidebarLocation>)
        ensures
            locations_view(r@) == favorites_of(locations_view(self.sidebar_locations@)),
    {
        let ghost all = locations_view(self.sidebar_locations@);
        let mut r: Vec<SidebarLocation> = Vec::new();
        let mut i: usize = 0;
        while i < self.sidebar_locations.len()
            invariant
                i <= self.sidebar_locations@.len(),
                all == locations_view(self.sidebar_locations@),
                locations_view(r@) == favorites_of(all.take(i as int)),
            decreases self.sidebar_locations.len() - i,
        {
            proof {
                lemma_favorites_step(all, i as int);
            }
            if self.sidebar_locations[i].kind.is_user_favorite() {
                let ghost prev = r@;
                r.push(self.sidebar_locations[i].copy());
                proof {
                    assert(locations_view(r@) =~= locations_view(prev).push(all[i as int]));
                }
            }
            i = i + 1;
        }
        proof {
            assert(all.take(i as int) =~= all);
        }
        r
    }

    /// Keeps the fixed places and lists `favorites` after them as the bookmarks.
    pub fn replace_sidebar_favorites(&mut self, favorites: Vec<SidebarLocation>)
        ensures
            locations_view(final(self).sidebar_locations@)
                == fixed_of(locations_view(old(self).sidebar_locations@)) + locations_view(favorites@),
            *final(self) == (FileBrowser { sidebar_locations: final(self).sidebar_locations, ..*old(self) }),
    {
        let ghost all = locations_view(self.sidebar_locations@);
        let mut locations: Vec<SidebarLocation> = Vec::new();
        let mut i: usize = 0;
        while i < self.sidebar_locations.len()
            invariant
                i <= self.sidebar_locations@.len(),
                all == locations_view(self.sidebar_locations@),
                locations_view(locations@) == fixed_of(all.take(i as int)),
            decreases self.sidebar_locations.len() - i,
        {
            proof {
                lemma_favorites_step(all, i as int);
            }
            if !self.sidebar_locations[i].kind.is_user_favorite() {
                let ghost prev = locations@;
                locations.push(self.sidebar_locations[i].copy());
                proof {
                    assert(locations_view(locations@) =~= locations_view(prev).push(all[i as int]));
                }
            }
            i = i + 1;
        }
        proof {
            assert(all.take(i as int) =~= all);
        }
        let ghost fixed = locations_view(locations@);
        let mut j: usize = 0;
        while j < favorites.len()
            invariant
                j <= favorites@.len(),
                locations_view(locations@) == fixed + locations_view(favorites@).take(j as int),
            decreases favorites.len() - j,
        {
            let ghost prev = locations@;
            locations.push(favorites[j].copy());
            proof {
                assert(locations_view(locations@) =~= locations_view(prev).push(favorites@[j as int]@));
                assert(locations_view(favorites@).take(j + 1) =~= locations_view(favorites@).take(j as int).push(
                    favorites@[j as int]@,
                ));
            }
            j = j + 1;
        }
        proof {
            assert(locations_view(favorites@).take(j as int) =~= locations_view(favorites@));
        }
        self.sidebar_locations = locations;
    }

    /// Whether `path` is one of the bookmarks.
    pub fn sidebar_favorite_exists(&self, path: &FsPath) -> (r: bool)
        ensures
            r == favorite_listed(locations_view(self.sidebar_locations@), path@),
    {
        let ghost all = locations_view(self.sidebar_locations@);
        let mut i: usize = 0;
        while i < self.sidebar_locations.len()
            invariant
                i <= self.sidebar_locations@.len(),
                all == locations_view(self.sidebar_locations@),
                forall|j: int| 0 <= j < i ==> !(#[trigger] all[j].kind.user_favorite() && all[j].path == path@),
            decreases self.sidebar_locations.len() - i,
        {
            let location = &self.sidebar_locations[i];
            proof {
                assert(all[i as int] == location@);
            }
            if location.kind.is_user_favorite() && location.path.same_path(path) {
                proof {
                    assert(all[i as int].kind.user_favorite() && all[i as int].path == path@);
                }
                return true;
            }
            i = i + 1;
        }
        false
    }

    /// Adds `source` as a bookmark at `slot` (clamped to the end of the
    /// list), under its own name, when it is a directory of the listing and
    /// not a bookmark yet. The slot highlight goes either way. Returns whether
    /// the bookmarks changed (and so are to be saved).
    pub fn insert_sidebar_bookmark_from_drag(&mut self, slot: SidebarBookmarkDropSlot, source: FsPath) -> (inserted: bool)
        ensures
            inserted == (old(self).kind_of(source@) == Some(FileKind::Directory)
                && !favorite_listed(locations_view(old(self).sidebar_locations@), source@)),
            inserted ==> locations_view(final(self).sidebar_locations@) == fixed_of(
                locations_view(old(self).sidebar_locations@),
            ) + favorites_of(locations_view(old(self).sidebar_locations@)).insert(
                clamped_slot(slot, favorites_of(locations_view(old(self).sidebar_locations@)).len()),
                new_bookmark(source@),
            ),
            !inserted ==> final(self).sidebar_locations == old(self).sidebar_locations,
            *final(self) == (FileBrowser {
                sidebar_locations: final(self).sidebar_locations,
                sidebar_bookmark_drop_slot: None,
                ..*old(self)
            }),
    {
        self.sidebar_bookmark_drop_slot = None;
        if self.entry_kind(&source) != Some(FileKind::Directory) || self.sidebar_favorite_exists(&source) {
            return false;
        }
        let mut favorites = self.sidebar_favorite_locations();
        let location = SidebarLocation {
            label: sidebar_bookmark_label(&source),
            path: source,
            kind: SidebarLocationKind::Bookmark,
        };
        let ghost favs = locations_view(favorites@);
        let ghost added = location@;
        let at = match slot {
            SidebarBookmarkDropSlot::Insert { index } => if index < favorites.len() {
                index
            } else {
                favorites.len()
            },
        };
        favorites.insert(at, location);
        proof {
            assert(locations_view(favorites@) =~= favs.insert(at as int, added));
        }
        self.replace_sidebar_favorites(favorites);
        true
    }

    /// A drop of dragged files on a bookmark slot: a single dragged
    /// directory is added as in [`FileBrowser::insert_sidebar_bookmark_from_drag`];
    /// anything else only hides the slot.
    pub fn add_dragged_sidebar_bookmark(&mut self, slot: SidebarBookmarkDropSlot, sources: Vec<FsPath>) -> (inserted: bool)
        ensures
            inserted == (sources@.len() == 1 && old(self).kind_of(sources@[0]@) == Some(FileKind::Directory)
                && !favorite_listed(locations_view(old(self).sidebar_locations@), sources@[0]@)),
            inserted ==> locations_view(final(self).sidebar_locations@) == fixed_of(
                locations_view(old(self).sidebar_locations@),
            ) + favorites_of(locations_view(old(self).sidebar_locations@)).insert(
                clamped_slot(slot, favorites_of(locations_view(old(self).sidebar_locations@)).len()),
                new_bookmark(sources@[0]@),
            ),
            !inserted ==> final(self).sidebar_locations == old(self).sidebar_locations,
            *final(self) == (FileBrowser {
                sidebar_locations: final(self).sidebar_locations,
                sidebar_bookmark_drop_slot: None,
                ..*old(self)
            }),
    {
        self.sidebar_bookmark_drop_slot = None;
        if sources.len() != 1 {
            return false;
        }
        self.insert_sidebar_bookmark_from_drag(slot, sources[0].copy())
    }

    /// A single dragged directory can be dropped onto a bookmark slot.
    pub open spec fn bookmark_drop_allowed(&self) -> bool {
        self.file_drag matches Some(d) && d.dragging() && d.sources@.len() == 1
            && self.kind_of(d.sources@[0]@) == Some(FileKind::Directory)
    }

    /// A single dragged directory can be dropped onto a bookmark slot.
    pub fn can_drop_sidebar_bookmark(&self) -> (r: bool)
        ensures
            r == self.bookmark_drop_allowed(),
    {
        match &self.file_drag {
            Some(drag) => drag.is_dragging() && drag.sources.len() == 1
                && self.entry_kind(&drag.sources[0]) == Some(FileKind::Directory),
            None => false,
        }
    }

    /// Clears the hovered target of the drop session when it is a bookmark slot.
    pub fn clear_sidebar_bookmark_drop_target(&mut self)
        ensures
            (old(self).file_drop_session matches Some(s) && s.phase == FileDropSessionPhase::Hovering
                && s.hovered_target matches Some(FileDropTarget::SidebarBookmarkSlot(_))) ==> (final(self).file_drop_session matches Some(f)
                && f.hovered_target is None && final(self).sidebar_bookmark_drop_slot is None),
            !(old(self).file_drop_session matches Some(s)
                && s.hovered_target matches Some(FileDropTarget::SidebarBookmarkSlot(_))) ==> *final(self) == *old(self),
            *final(self) == (FileBrowser {
                file_drop_session: final(self).file_drop_session,
                sidebar_bookmark_drop_slot: final(self).sidebar_bookmark_drop_slot,
                ..*old(self)
            }),
    {
        let is_slot = match &self.file_drop_session {
            Some(session) => match &session.hovered_target {
                Some(FileDropTarget::SidebarBookmarkSlot(_)) => true,
                _ => false,
            },
            None => false,
        };
        if is_slot {
            self.set_file_drop_target(None);
        }
    }

    /// Hides the bookmark slot and clears a bookmark-slot drop target.
    pub fn clear_sidebar_bookmark_drop_slot(&mut self)
        ensures
            final(self).sidebar_bookmark_drop_slot is None,
            !(old(self).file_drop_session matches Some(s)
                && s.hovered_target matches Some(FileDropTarget::SidebarBookmarkSlot(_))) ==> *final(self) == (FileBrowser { sidebar_bookmark_drop_slot: None, ..*old(self) }),
            (old(self).file_drop_session matches Some(s) && s.phase == FileDropSessionPhase::Hovering
                && s.hovered_target matches Some(FileDropTarget::SidebarBookmarkSlot(_))) ==> (final(self).file_drop_session matches Some(f)
                && f.hovered_target is None),
            *final(self) == (FileBrowser {
                file_drop_session: final(self).file_drop_session,
                sidebar_bookmark_drop_slot: None,
                ..*old(self)
            }),
    {
        self.sidebar_bookmark_drop_slot = None;
        self.clear_sidebar_bookmark_drop_target();
        self.sidebar_bookmark_drop_slot = None;
    }

    /// Bookmark rows are still moving to their places.
    pub fn sidebar_bookmark_motion_is_active(&self) -> (r: bool)
        ensures
            r == (self.sidebar_bookmark_motion@.len() > 0),
    {
        self.sidebar_bookmark_motion.len() > 0
    }
}

/// The first position of `path` among the locations, found by comparing paths.
pub fn favorite_position(favorites: &Vec<SidebarLocation>, path: &FsPath) -> (r: Option<usize>)
    ensures
        match r {
            Some(i) => location_paths(locations_view(favorites@)).index_of_first(path@) == Some(i as int),
            None => location_paths(locations_view(favorites@)).index_of_first(path@) is None,
        },
{
    let ghost paths = location_paths(locations_view(favorites@));
    proof {
        paths.index_of_first_ensures(path@);
    }
    let mut i: usize = 0;
    while i < favorites.len()
        invariant
            i <= favorites@.len(),
            paths == location_paths(locations_view(favorites@)),
            forall|j: int| 0 <= j < i ==> paths[j] != path@,
        decreases favorites.len() - i,
    {
        proof {
            assert(paths[i as int] == favorites@[i as int].path@);
        }
        if favorites[i].path.same_path(path) {
            proof {
                assert(paths.contains(path@));
                paths.index_of_first_ensures(path@);
                let k = paths.index_of_first(path@).unwrap();
                assert(k == i) by {
                    if k < i {
                        assert(paths[k] != path@);
                    }
                    if k > i {
                        assert(paths[i as int] != path@);
                    }
                }
            }
            return Some(i);
        }
        i = i + 1;
    }
    proof {
        if paths.contains(path@) {
            let k = choose|k: int| 0 <= k < paths.len() && paths[k] == path@;
            assert(paths[k] != path@);
        }
    }
    None
}

/// The bookmarks after the one at `dragged` has been taken out and put back at `entered`.
pub open spec fn reordered(favorites: Seq<LocationModel>, dragged: int, entered: int) -> Seq<LocationModel> {
    favorites.remove(dragged).insert(entered, favorites[dragged])
}

/// The paths of the rows that a bookmark moving from `dragged` to `entered` passes over.
pub open spec fn shifted_paths(paths: Seq<PathModel>, dragged: int, entered: int) -> Seq<PathModel> {
    if dragged < entered {
        paths.subrange(dragged + 1, entered + 1)
    } else {
        paths.subrange(entered, dragged)
    }
}

/// The locations other than the one at `path`.
pub open spec fn without_path(locations: Seq<LocationModel>, path: PathModel) -> Seq<LocationModel> {
    locations.filter(|l: LocationModel| l.path != path)
}

/// The rows in motion that stay so: those still bookmarked whose motion has not finished.
pub open spec fn kept_motion(motion: Seq<PathModel>, locations: Seq<LocationModel>, finished: Seq<PathModel>) -> Seq<PathModel> {
    motion.filter(|p: PathModel| favorite_listed(locations, p) && !finished.contains(p))
}

proof fn lemma_without_path_step(s: Seq<LocationModel>, path: PathModel, i: int)
    requires
        0 <= i < s.len(),
    ensures
        without_path(s.take(i + 1), path) == if s[i].path != path {
            without_path(s.take(i), path).push(s[i])
        } else {
            without_path(s.take(i), path)
        },
{
    reveal(Seq::filter);
    assert(s.take(i + 1).drop_last() =~= s.take(i));
}

proof fn lemma_kept_motion_step(s: Seq<PathModel>, locations: Seq<LocationModel>, finished: Seq<PathModel>, i: int)
    requires
        0 <= i < s.len(),
    ensures
        kept_motion(s.take(i + 1), locations, finished) == if favorite_listed(locations, s[i]) && !finished.contains(s[i]) {
            kept_motion(s.take(i), locations, finished).push(s[i])
        } else {
            kept_motion(s.take(i), locations, finished)
        },
{
    reveal(Seq::filter);
    assert(s.take(i + 1).drop_last() =~= s.take(i));
}

/// The paths other than `path`, in their order.
pub fn paths_without(paths: &Vec<FsPath>, path: &FsPath) -> (motion: Vec<FsPath>)
    ensures
        forall|p: PathModel| #[trigger] paths_view(motion@).contains(p) <==> (
            paths_view(paths@).contains(p) && p != path@),
{
    let ghost old_motion = paths_view(paths@);
    let mut motion: Vec<FsPath> = Vec::new();
    let mut i: usize = 0;
    while i < paths.len()
        invariant
            i <= paths@.len(),
            old_motion == paths_view(paths@),
            forall|p: PathModel| #[trigger] paths_view(motion@).contains(p) <==> (
                old_motion.take(i as int).contains(p) && p != path@),
        decreases paths.len() - i,
    {
        let ghost before = paths_view(motion@);
        let ghost here = old_motion[i as int];
        proof {
            assert(here == paths@[i as int]@);
            assert(old_motion.take(i + 1) =~= old_motion.take(i as int).push(here));
        }
        if !paths[i].same_path(path) {
            motion.push(paths[i].copy());
            proof {
                assert(paths_view(motion@) =~= before.push(here));
            }
        }
        proof {
            lemma_contains_push(old_motion.take(i as int), here);
            lemma_contains_push(before, here);
        }
        i = i + 1;
    }
    proof {
        assert(old_motion.take(i as int) =~= old_motion);
    }
    motion
}

/// The locations other than those at `path`, in their order.
pub fn locations_without(favorites: &Vec<SidebarLocation>, path: &FsPath) -> (kept: Vec<SidebarLocation>)
    ensures
        locations_view(kept@) == without_path(locations_view(favorites@), path@),
{
    let ghost favs = locations_view(favorites@);
    let mut kept: Vec<SidebarLocation> = Vec::new();
    let mut j: usize = 0;
    while j < favorites.len()
        invariant
            j <= favorites@.len(),
            favs == locations_view(favorites@),
            locations_view(kept@) == without_path(favs.take(j as int), path@),
        decreases favorites.len() - j,
    {
        proof {
            lemma_without_path_step(favs, path@, j as int);
            assert(favs[j as int] == favorites@[j as int]@);
        }
        if !favorites[j].path.same_path(path) {
            let ghost prev = kept@;
            kept.push(favorites[j].copy());
            proof {
                assert(locations_view(kept@) =~= locations_view(prev).push(favs[j as int]));
            }
        }
        j = j + 1;
    }
    proof {
        assert(favs.take(j as int) =~= favs);
    }
    kept
}

/// What a sequence with one more path at its end contains.
proof fn lemma_contains_push(s: Seq<PathModel>, x: PathModel)
    ensures
        forall|p: PathModel| #[trigger] s.push(x).contains(p) <==> (s.contains(p) || p == x),
{
    assert forall|p: PathModel| #[trigger] s.push(x).contains(p) <==> (s.contains(p) || p == x) by {
        let t = s.push(x);
        if s.contains(p) {
            let k = choose|k: int| 0 <= k < s.len() && s[k] == p;
            assert(t[k] == p);
        }
        if p == x {
            assert(t[s.len() as int] == p);
        }
        if t.contains(p) && p != x {
            let k = choose|k: int| 0 <= k < t.len() && t[k] == p;
            assert(s[k] == p);
        }
    }
}

/// Whether `path` is among `paths`, compared component by component.
pub fn contains_path(paths: &Vec<FsPath>, path: &FsPath) -> (r: bool)
    ensures
        r == paths_view(paths@).contains(path@),
{
    let ghost v = paths_view(paths@);
    let mut i: usize = 0;
    while i < paths.len()
        invariant
            i <= paths@.len(),
            v == paths_view(paths@),
            forall|j: int| 0 <= j < i ==> v[j] != path@,
        decreases paths.len() - i,
    {
        proof {
            assert(v[i as int] == paths@[i as int]@);
        }
        if paths[i].same_path(path) {
            return true;
        }
        i = i + 1;
    }
    false
}

/// The pointer over the sidebar's bookmark list, as the window layer measured it.
#[derive(Debug, Clone, PartialEq, Eq)]
pub enum SidebarBookmarkPointerTarget {
    Insert(SidebarBookmarkDropSlot),
    Directory(FsPath),
    /// Between or beside the rows, where nothing is dropped.
    Outside,
}

/// What releasing a press on a bookmark row leads to.
#[derive(Debug, Clone, PartialEq, Eq)]
pub enum SidebarBookmarkDragOutcome {
    /// There was no press, or the drag left the order as it was.
    Nothing,
    /// The drag changed the order of the bookmarks, which are to be saved.
    Save,
    /// The press never became a drag: the bookmark is opened.
    Navigate(FsPath),
}

/// `after` is `before` once the dragged bookmark has moved to the row of
/// `entered`, as [`FileBrowser::reorder_sidebar_bookmark`] does it.
pub open spec fn bookmark_reorder_outcome(before: FileBrowser, after: FileBrowser, entered: PathModel) -> bool {
    ({
        let favs = favorites_of(locations_view(before.sidebar_locations@));
        let paths = location_paths(favs);
        match before.sidebar_bookmark_drag {
            Some(drag) => {
                if drag.path@ != entered && paths.index_of_first(drag.path@) is Some
                    && paths.index_of_first(entered) is Some {
                    let d = paths.index_of_first(drag.path@).unwrap();
                    let e = paths.index_of_first(entered).unwrap();
                    &&& locations_view(after.sidebar_locations@) == fixed_of(
                        locations_view(before.sidebar_locations@),
                    ) + reordered(favs, d, e)
                    &&& forall|p: PathModel| #[trigger] paths_view(after.sidebar_bookmark_motion@).contains(p) <==> (
                        paths_view(before.sidebar_bookmark_motion@).contains(p) || shifted_paths(paths, d, e).contains(p))
                    &&& after.sidebar_bookmark_drag == Some(SidebarBookmarkDragState { order_changed: true, ..drag })
                    &&& after == (FileBrowser {
                        sidebar_locations: after.sidebar_locations,
                        sidebar_bookmark_motion: after.sidebar_bookmark_motion,
                        sidebar_bookmark_drag: after.sidebar_bookmark_drag,
                        ..before
                    })
                } else {
                    after == before
                }
            },
            None => after == before,
        }
    })
}

impl FileBrowser {
    /// Adds `paths` to the rows in motion; a row already moving stays listed once.
    pub fn start_sidebar_bookmark_motion(&mut self, paths: Vec<FsPath>)
        ensures
            forall|p: PathModel| #[trigger] paths_view(final(self).sidebar_bookmark_motion@).contains(p) <==> (
                paths_view(old(self).sidebar_bookmark_motion@).contains(p) || paths_view(paths@).contains(p)),
            *final(self) == (FileBrowser { sidebar_bookmark_motion: final(self).sidebar_bookmark_motion, ..*old(self) }),
    {
        let ghost old_motion = paths_view(self.sidebar_bookmark_motion@);
        let ghost added = paths_view(paths@);
        let mut i: usize = 0;
        while i < paths.len()
            invariant
                i <= paths@.len(),
                added == paths_view(paths@),
                *self == (FileBrowser { sidebar_bookmark_motion: self.sidebar_bookmark_motion, ..*old(self) }),
                forall|p: PathModel| #[trigger] paths_view(self.sidebar_bookmark_motion@).contains(p) <==> (
                    old_motion.contains(p) || added.take(i as int).contains(p)),
            decreases paths.len() - i,
        {
            let ghost before = paths_view(self.sidebar_bookmark_motion@);
            proof {
                assert(added[i as int] == paths@[i as int]@);
                assert(added.take(i + 1) =~= added.take(i as int).push(added[i as int]));
            }
            if !contains_path(&self.sidebar_bookmark_motion, &paths[i]) {
                self.sidebar_bookmark_motion.push(paths[i].copy());
                proof {
                    assert(paths_view(self.sidebar_bookmark_motion@) =~= before.push(added[i as int]));
                }
            }
            proof {
                lemma_contains_push(added.take(i as int), added[i as int]);
                lemma_contains_push(before, added[i as int]);
            }
            i = i + 1;
        }
        proof {
            assert(added.take(i as int) =~= added);
        }
    }

    /// Moves the dragged bookmark to the row of `entered_path`: both must be
    /// bookmarks and differ. The rows passed over start moving, and the drag
    /// records that the order changed. Anything else leaves the browser as it was.
    pub fn reorder_sidebar_bookmark(&mut self, entered_path: FsPath)
        ensures
            bookmark_reorder_outcome(*old(self), *final(self), entered_path@),
    {
        let dragged_path = match &self.sidebar_bookmark_drag {
            Some(drag) => drag.path.copy(),
            None => return,
        };
        if dragged_path.same_path(&entered_path) {
            return;
        }
        let mut favorites = self.sidebar_favorite_locations();
        let ghost favs = locations_view(favorites@);
        let dragged_index = match favorite_position(&favorites, &dragged_path) {
            Some(i) => i,
            None => return,
        };
        let entered_index = match favorite_position(&favorites, &entered_path) {
            Some(i) => i,
            None => return,
        };
        proof {
            location_paths(favs).index_of_first_ensures(dragged_path@);
            location_paths(favs).index_of_first_ensures(entered_path@);
        }
        let shifted = shifted_sidebar_bookmark_paths(favorites.as_slice(), dragged_index, entered_index);
        let dragged = favorites.remove(dragged_index);
        favorites.insert(entered_index, dragged);
        proof {
            assert(locations_view(favorites@) =~= reordered(favs, dragged_index as int, entered_index as int));
        }
        self.replace_sidebar_favorites(favorites);
        self.start_sidebar_bookmark_motion(shifted);
        match &mut self.sidebar_bookmark_drag {
            Some(drag) => {
                drag.order_changed = true;
            },
            None => {},
        }
    }

    /// The pointer moved during a press on a bookmark row. The press becomes
    /// a drag once the pointer has gone far enough (`moved_far_enough`).
    /// While dragging with the pointer beside the sidebar (`inside_sidebar`
    /// false), the bookmark at `projected_index`, the row the pointer's
    /// height points at, is hovered and the dragged bookmark moves to it,
    /// unless that is where it already is or there is no such row. Returns
    /// the bookmark it moved to.
    pub fn update_sidebar_bookmark_drag(&mut self, moved_far_enough: bool, inside_sidebar: bool, projected_index: usize) -> (r: Option<FsPath>)
        ensures
            match old(self).sidebar_bookmark_drag {
                None => r is None && *final(self) == *old(self),
                Some(drag) => {
                    let favs = favorites_of(locations_view(old(self).sidebar_locations@));
                    let paths = location_paths(favs);
                    let current = match paths.index_of_first(drag.path@) {
                        Some(i) => i,
                        None => drag.source_index as int,
                    };
                    let moved = SidebarBookmarkDragState { dragging: drag.dragging || moved_far_enough, ..drag };
                    let activated = FileBrowser { sidebar_bookmark_drag: Some(moved), ..*old(self) };
                    if !inside_sidebar && moved.dragging && projected_index != current && projected_index < favs.len() {
                        &&& r matches Some(t) && t@ == favs[projected_index as int].path
                        &&& final(self).hovered_sidebar matches Some(h) && h@ == favs[projected_index as int].path
                        &&& bookmark_reorder_outcome(
                            FileBrowser { hovered_sidebar: final(self).hovered_sidebar, ..activated },
                            *final(self),
                            favs[projected_index as int].path,
                        )
                    } else {
                        r is None && *final(self) == activated
                    }
                },
            },
    {
        let (path, source_index, dragging) = match &self.sidebar_bookmark_drag {
            Some(drag) => (drag.path.copy(), drag.source_index, drag.dragging),
            None => return None,
        };
        let favorites = self.sidebar_favorite_locations();
        let ghost favs = locations_view(favorites@);
        let current_index = match favorite_position(&favorites, &path) {
            Some(i) => i,
            None => source_index,
        };
        proof {
            location_paths(favs).index_of_first_ensures(path@);
        }
        if !dragging && moved_far_enough {
            match &mut self.sidebar_bookmark_drag {
                Some(drag) => {
                    drag.dragging = true;
                },
                None => {},
            }
        }
        let now_dragging = dragging || moved_far_enough;
        if !inside_sidebar && now_dragging && projected_index != current_index && projected_index < favorites.len() {
            let target = favorites[projected_index].path.copy();
            self.hovered_sidebar = Some(target.copy());
            self.reorder_sidebar_bookmark(target.copy());
            return Some(target);
        }
        None
    }

    /// Presses a bookmark row: when `path` is a bookmark, menus, file drags,
    /// the bookmark slot and all row motion are cleared, and a press that may
    /// become a reordering drag starts at the bookmark's row. Returns whether
    /// it started.
    pub fn start_sidebar_bookmark_drag(&mut self, path: FsPath) -> (started: bool)
        ensures
            started == favorite_listed(locations_view(old(self).sidebar_locations@), path@),
            !started ==> *final(self) == *old(self),
            started ==> ({
                let paths = location_paths(favorites_of(locations_view(old(self).sidebar_locations@)));
                &&& final(self).sidebar_bookmark_drag matches Some(d)
                &&& d.path == path
                &&& d.source_index as int == match paths.index_of_first(path@) {
                    Some(i) => i,
                    None => 0,
                }
                &&& !d.dragging
                &&& !d.order_changed
                &&& *final(self) == (FileBrowser {
                    context_menu: None,
                    file_drag: None,
                    sidebar_bookmark_drop_slot: None,
                    sidebar_bookmark_motion: final(self).sidebar_bookmark_motion,
                    sidebar_bookmark_drag: final(self).sidebar_bookmark_drag,
                    ..*old(self)
                })
                &&& final(self).sidebar_bookmark_motion@.len() == 0
            }),
    {
        if !self.sidebar_favorite_exists(&path) {
            return false;
        }
        self.context_menu = None;
        self.file_drag = None;
        self.sidebar_bookmark_drop_slot = None;
        self.sidebar_bookmark_motion = Vec::new();
        let favorites = self.sidebar_favorite_locations();
        let source_index = match favorite_position(&favorites, &path) {
            Some(i) => i,
            None => 0,
        };
        self.sidebar_bookmark_drag = Some(
            SidebarBookmarkDragState { path, source_index, dragging: false, order_changed: false },
        );
        true
    }

    /// Releases a press on a bookmark row; the press and the slot highlight
    /// go. A drag that changed the order asks for the bookmarks to be saved;
    /// a press that never moved opens the bookmark.
    pub fn finish_sidebar_bookmark_drag(&mut self) -> (r: SidebarBookmarkDragOutcome)
        ensures
            match old(self).sidebar_bookmark_drag {
                None => *final(self) == *old(self) && r == SidebarBookmarkDragOutcome::Nothing,
                Some(drag) => {
                    &&& *final(self) == (FileBrowser {
                        sidebar_bookmark_drag: None,
                        sidebar_bookmark_drop_slot: None,
                        ..*old(self)
                    })
                    &&& r == if !drag.dragging {
                        SidebarBookmarkDragOutcome::Navigate(drag.path)
                    } else if drag.order_changed {
                        SidebarBookmarkDragOutcome::Save
                    } else {
                        SidebarBookmarkDragOutcome::Nothing
                    }
                },
            },
    {
        let drag = match self.sidebar_bookmark_drag.take() {
            Some(drag) => drag,
            None => return SidebarBookmarkDragOutcome::Nothing,
        };
        self.sidebar_bookmark_drop_slot = None;
        if drag.dragging {
            if drag.order_changed {
                SidebarBookmarkDragOutcome::Save
            } else {
                SidebarBookmarkDragOutcome::Nothing
            }
        } else {
            SidebarBookmarkDragOutcome::Navigate(drag.path)
        }
    }

    /// Removes the bookmark at `path`. Menus, the bookmark drag, the slot,
    /// the row's motion and a hover on it go first. Returns whether a
    /// bookmark was removed (and so the bookmarks are to be saved).
    pub fn delete_sidebar_bookmark(&mut self, path: FsPath) -> (removed: bool)
        ensures
            removed == favorite_listed(locations_view(old(self).sidebar_locations@), path@),
            removed ==> locations_view(final(self).sidebar_locations@) == fixed_of(
                locations_view(old(self).sidebar_locations@),
            ) + without_path(favorites_of(locations_view(old(self).sidebar_locations@)), path@),
            !removed ==> final(self).sidebar_locations == old(self).sidebar_locations,
            forall|p: PathModel| #[trigger] paths_view(final(self).sidebar_bookmark_motion@).contains(p) <==> (
                paths_view(old(self).sidebar_bookmark_motion@).contains(p) && p != path@),
            final(self).hovered_sidebar == if old(self).hovered_sidebar matches Some(h) && h@ == path@ {
                None
            } else {
                old(self).hovered_sidebar
            },
            *final(self) == (FileBrowser {
                context_menu: None,
                sidebar_bookmark_drag: None,
                sidebar_bookmark_drop_slot: None,
                sidebar_locations: final(self).sidebar_locations,
                sidebar_bookmark_motion: final(self).sidebar_bookmark_motion,
                hovered_sidebar: final(self).hovered_sidebar,
                ..*old(self)
            }),
    {
        self.context_menu = None;
        self.sidebar_bookmark_drag = None;
        self.sidebar_bookmark_drop_slot = None;
        let motion = paths_without(&self.sidebar_bookmark_motion, &path);
        self.sidebar_bookmark_motion = motion;
        let clear_hover = match &self.hovered_sidebar {
            Some(h) => h.same_path(&path),
            None => false,
        };
        if clear_hover {
            self.hovered_sidebar = None;
        }
        if !self.sidebar_favorite_exists(&path) {
            return false;
        }
        let favorites = self.sidebar_favorite_locations();
        let kept = locations_without(&favorites, &path);
        self.replace_sidebar_favorites(kept);
        true
    }

    /// Drops the rows in motion that are no longer bookmarks or whose motion
    /// (as the window layer timed it) is among `finished`.
    pub fn prune_sidebar_bookmark_motion(&mut self, finished: &Vec<FsPath>)
        ensures
            paths_view(final(self).sidebar_bookmark_motion@) == kept_motion(
                paths_view(old(self).sidebar_bookmark_motion@),
                locations_view(old(self).sidebar_locations@),
                paths_view(finished@),
            ),
            *final(self) == (FileBrowser { sidebar_bookmark_motion: final(self).sidebar_bookmark_motion, ..*old(self) }),
    {
        let ghost old_motion = paths_view(self.sidebar_bookmark_motion@);
        let ghost locs = locations_view(self.sidebar_locations@);
        let mut motion: Vec<FsPath> = Vec::new();
        let mut i: usize = 0;
        while i < self.sidebar_bookmark_motion.len()
            invariant
                i <= self.sidebar_bookmark_motion@.len(),
                old_motion == paths_view(self.sidebar_bookmark_motion@),
                locs == locations_view(self.sidebar_locations@),
                paths_view(motion@) == kept_motion(old_motion.take(i as int), locs, paths_view(finished@)),
            decreases self.sidebar_bookmark_motion.len() - i,
        {
            let path = &self.sidebar_bookmark_motion[i];
            proof {
                lemma_kept_motion_step(old_motion, locs, paths_view(finished@), i as int);
                assert(old_motion[i as int] == path@);
            }
            if self.sidebar_favorite_exists(path) && !contains_path(finished, path) {
                let ghost prev = paths_view(motion@);
                motion.push(path.copy());
                proof {
                    assert(paths_view(motion@) =~= prev.push(old_motion[i as int]));
                }
            }
            i = i + 1;
        }
        proof {
            assert(old_motion.take(i as int) =~= old_motion);
        }
        self.sidebar_bookmark_motion = motion;
    }
}

/// A hovering drop session now aims at `target`; a session that is not
/// hovering, or none, is left as it was.
pub open spec fn session_aimed_at(
    before: Option<FileDropSessionState>,
    after: Option<FileDropSessionState>,
    target: Option<DropTargetModel>,
) -> bool {
    match before {
        Some(s) => if s.phase == FileDropSessionPhase::Hovering {
            after matches Some(f) && opt_target_view(f.hovered_target) == target
        } else {
            after == before
        },
        None => after == before,
    }
}

/// A storage-device action that can fail.
#[derive(Debug, Clone, Copy, PartialEq, Eq, Structural)]
pub enum SidebarDeviceAction {
    Mount,
    Unmount,
    Eject,
}

/// The verb that names `action` in an error message.
pub fn sidebar_device_action_error_verb(action: SidebarDeviceAction) -> (r: &'static str)
    ensures
        r@ == match action {
            SidebarDeviceAction::Mount => "mount"@,
            SidebarDeviceAction::Unmount => "unmount"@,
            SidebarDeviceAction::Eject => "eject"@,
        },
{
    match action {
        SidebarDeviceAction::Mount => "mount",
        SidebarDeviceAction::Unmount => "unmount",
        SidebarDeviceAction::Eject => "eject",
    }
}

impl FileBrowser {
    /// Follows the pointer over the bookmark list during a file drag. Unless
    /// a single directory is dragged, the slot and a slot target are cleared.
    /// Otherwise an insertion band shows its slot and aims the drop at it, a
    /// row aims the drop at its directory, and elsewhere nothing is aimed at.
    pub fn update_sidebar_bookmark_drop_slot(&mut self, target: SidebarBookmarkPointerTarget)
        ensures
            !old(self).bookmark_drop_allowed() ==> final(self).sidebar_bookmark_drop_slot is None
                && final(self).hovered_sidebar == old(self).hovered_sidebar,
            old(self).bookmark_drop_allowed() ==> match target {
                SidebarBookmarkPointerTarget::Insert(slot) => {
                    &&& final(self).sidebar_bookmark_drop_slot == Some(slot)
                    &&& final(self).hovered_sidebar is None
                    &&& final(self).cursor_paste_directory is None
                    &&& session_aimed_at(
                        old(self).file_drop_session,
                        final(self).file_drop_session,
                        Some(DropTargetModel::SidebarBookmarkSlot(slot)),
                    )
                },
                SidebarBookmarkPointerTarget::Directory(path) => {
                    &&& final(self).sidebar_bookmark_drop_slot is None
                    &&& opt_path_view(final(self).hovered_sidebar) == Some(path@)
                    &&& final(self).cursor_paste_directory == old(self).cursor_paste_directory
                    &&& session_aimed_at(
                        old(self).file_drop_session,
                        final(self).file_drop_session,
                        Some(DropTargetModel::Directory(path@)),
                    )
                },
                SidebarBookmarkPointerTarget::Outside => {
                    &&& final(self).sidebar_bookmark_drop_slot is None
                    &&& final(self).hovered_sidebar == old(self).hovered_sidebar
                    &&& final(self).cursor_paste_directory == old(self).cursor_paste_directory
                    &&& session_aimed_at(old(self).file_drop_session, final(self).file_drop_session, None)
                },
            },
            *final(self) == (FileBrowser {
                sidebar_bookmark_drop_slot: final(self).sidebar_bookmark_drop_slot,
                hovered_sidebar: final(self).hovered_sidebar,
                cursor_paste_directory: final(self).cursor_paste_directory,
                file_drop_session: final(self).file_drop_session,
                ..*old(self)
            }),
    {
        if !self.can_drop_sidebar_bookmark() {
            self.clear_sidebar_bookmark_drop_slot();
            return;
        }
        match target {
            SidebarBookmarkPointerTarget::Insert(slot) => self.aim_drop_at_bookmark_slot(slot),
            SidebarBookmarkPointerTarget::Directory(path) => self.aim_drop_at_sidebar_directory(path),
            SidebarBookmarkPointerTarget::Outside => self.aim_drop_at_nothing(),
        }
    }

    fn aim_drop_at_bookmark_slot(&mut self, slot: SidebarBookmarkDropSlot)
        ensures
            final(self).sidebar_bookmark_drop_slot == Some(slot),
            final(self).hovered_sidebar is None,
            final(self).cursor_paste_directory is None,
            session_aimed_at(
                old(self).file_drop_session,
                final(self).file_drop_session,
                Some(DropTargetModel::SidebarBookmarkSlot(slot)),
            ),
            *final(self) == (FileBrowser {
                sidebar_bookmark_drop_slot: final(self).sidebar_bookmark_drop_slot,
                hovered_sidebar: final(self).hovered_sidebar,
                cursor_paste_directory: final(self).cursor_paste_directory,
                file_drop_session: final(self).file_drop_session,
                ..*old(self)
            }),
    {
        self.hovered_sidebar = None;
        self.cursor_paste_directory = None;
        self.set_file_drop_target(Some(FileDropTarget::SidebarBookmarkSlot(slot)));
        self.sidebar_bookmark_drop_slot = Some(slot);
    }

    fn aim_drop_at_sidebar_directory(&mut self, path: FsPath)
        ensures
            final(self).sidebar_bookmark_drop_slot is None,
            opt_path_view(final(self).hovered_sidebar) == Some(path@),
            session_aimed_at(
                old(self).file_drop_session,
                final(self).file_drop_session,
                Some(DropTargetModel::Directory(path@)),
            ),
            *final(self) == (FileBrowser {
                sidebar_bookmark_drop_slot: final(self).sidebar_bookmark_drop_slot,
                hovered_sidebar: final(self).hovered_sidebar,
                file_drop_session: final(self).file_drop_session,
                ..*old(self)
            }),
    {
        self.sidebar_bookmark_drop_slot = None;
        self.hovered_sidebar = Some(path.copy());
        self.set_file_drag_target(path);
        self.sidebar_bookmark_drop_slot = None;
    }

    fn aim_drop_at_nothing(&mut self)
        ensures
            final(self).sidebar_bookmark_drop_slot is None,
            session_aimed_at(old(self).file_drop_session, final(self).file_drop_session, None),
            *final(self) == (FileBrowser {
                sidebar_bookmark_drop_slot: final(self).sidebar_bookmark_drop_slot,
                file_drop_session: final(self).file_drop_session,
                ..*old(self)
            }),
    {
        self.sidebar_bookmark_drop_slot = None;
        self.clear_file_drag_target();
        self.sidebar_bookmark_drop_slot = None;
    }

    /// The pointer enters a bookmark row. During a file drag nothing
    /// happens; during a reordering drag the dragged bookmark moves to this
    /// row (see [`FileBrowser::reorder_sidebar_bookmark`]) and the row is
    /// hovered. Returns whether it was a reordering drag; otherwise the row
    /// is an ordinary hover, which the caller handles.
    pub fn handle_sidebar_bookmark_entered(&mut self, path: FsPath) -> (reordering: bool)
        ensures
            reordering == (old(self).file_drag is None && (old(self).sidebar_bookmark_drag matches Some(d) && d.dragging)),
            !reordering ==> *final(self) == *old(self),
            reordering ==> opt_path_view(final(self).hovered_sidebar) == Some(path@),
    {
        if self.file_drag.is_some() {
            return false;
        }
        let dragging = match &self.sidebar_bookmark_drag {
            Some(drag) => drag.dragging,
            None => false,
        };
        if !dragging {
            return false;
        }
        self.hovered_sidebar = Some(path.copy());
        self.reorder_sidebar_bookmark(path);
        true
    }
}
} // verus!
