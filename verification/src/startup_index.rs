use vstd::prelude::*;

use crate::fs_path::{FsPath, PathModel, path_starts_with};
use crate::sidebar_bookmarks::{LocationModel, SidebarLocation, SidebarLocationKind, locations_view};

verus! {

/// Whether a root offered for indexing starts selected.
#[derive(Debug, Clone, Copy, PartialEq, Eq, Structural)]
pub enum StartupIndexEntrySelection {
    Selected,
    Skipped,
}

/// A root offered for indexing at first start.
#[derive(Debug, Clone, PartialEq, Eq)]
pub struct StartupIndexRootSeed {
    pub label: String,
    pub path: FsPath,
    pub selection: StartupIndexEntrySelection,
}

/// The meaning of a [`StartupIndexRootSeed`].
pub struct SeedModel {
    pub label: Seq<char>,
    pub path: PathModel,
    pub selection: StartupIndexEntrySelection,
}

impl View for StartupIndexRootSeed {
    type V = SeedModel;

    open spec fn view(&self) -> SeedModel {
        SeedModel { label: self.label@, path: self.path@, selection: self.selection }
    }
}

/// The meanings of a list of seeds.
pub open spec fn seeds_view(seeds: Seq<StartupIndexRootSeed>) -> Seq<SeedModel> {
    seeds.map_values(|s: StartupIndexRootSeed| s@)
}

/// The paths of a list of seeds.
pub open spec fn seed_paths(seeds: Seq<SeedModel>) -> Seq<PathModel> {
    seeds.map_values(|s: SeedModel| s.path)
}

/// The common user directories are offered by default; home, the trash and
/// bookmarks are not.
pub open spec fn default_root_kind(kind: SidebarLocationKind) -> bool {
    kind == SidebarLocationKind::Desktop || kind == SidebarLocationKind::Documents
        || kind == SidebarLocationKind::Downloads || kind == SidebarLocationKind::Pictures
        || kind == SidebarLocationKind::Videos || kind == SidebarLocationKind::Music
}

/// A selected seed for a sidebar location, under its label.
pub open spec fn seed_of(location: LocationModel) -> SeedModel {
    SeedModel { label: location.label, path: location.path, selection: StartupIndexEntrySelection::Selected }
}

/// The common roots offered for indexing: each location of a default kind,
/// in order, unless its path was offered already.
pub open spec fn common_seeds(locations: Seq<LocationModel>) -> Seq<SeedModel>
    decreases locations.len(),
{
    if locations.len() == 0 {
        Seq::empty()
    } else {
        let rest = common_seeds(locations.drop_last());
        let last = locations.last();
        if default_root_kind(last.kind) && !seed_paths(rest).contains(last.path) {
            rest.push(seed_of(last))
        } else {
            rest
        }
    }
}

/// The common roots followed by the configuration root, when there is one
/// whose path was not offered already.
pub open spec fn common_seeds_with_config(locations: Seq<LocationModel>, config: Option<SeedModel>) -> Seq<SeedModel> {
    let common = common_seeds(locations);
    match config {
        Some(c) => if seed_paths(common).contains(c.path) {
            common
        } else {
            common.push(c)
        },
        None => common,
    }
}

/// The label of the configuration root.
pub open spec fn config_root_label() -> Seq<char> {
    "User Config"@
}

/// Whether a location kind is offered for indexing by default: see [`default_root_kind`].
pub fn startup_index_default_root_kind(kind: SidebarLocationKind) -> (r: bool)
    ensures
        r == default_root_kind(kind),
{
    match kind {
        SidebarLocationKind::Desktop | SidebarLocationKind::Documents | SidebarLocationKind::Downloads
        | SidebarLocationKind::Pictures | SidebarLocationKind::Videos | SidebarLocationKind::Music => true,
        _ => false,
    }
}

impl StartupIndexRootSeed {
    /// A copy of this seed.
    pub fn copy(&self) -> (r: StartupIndexRootSeed)
        ensures
            r@ == self@,
    {
        StartupIndexRootSeed { label: self.label.clone(), path: self.path.copy(), selection: self.selection }
    }
}

/// Whether some seed has path `path`.
fn seed_path_listed(seeds: &Vec<StartupIndexRootSeed>, path: &FsPath) -> (r: bool)
    ensures
        r == seed_paths(seeds_view(seeds@)).contains(path@),
{
    let ghost paths = seed_paths(seeds_view(seeds@));
    let mut i: usize = 0;
    while i < seeds.len()
        invariant
            i <= seeds@.len(),
            paths == seed_paths(seeds_view(seeds@)),
            forall|j: int| 0 <= j < i ==> paths[j] != path@,
        decreases seeds.len() - i,
    {
        proof {
            assert(paths[i as int] == seeds@[i as int].path@);
        }
        if seeds[i].path.same_path(path) {
            return true;
        }
        i = i + 1;
    }
    false
}

/// The roots offered for indexing at first start: see [`common_seeds_with_config`].
pub fn startup_index_common_root_seeds(
    locations: &[SidebarLocation],
    config_root: Option<StartupIndexRootSeed>,
) -> (r: Vec<StartupIndexRootSeed>)
    ensures
        seeds_view(r@) == common_seeds_with_config(
            locations_view(locations@),
            match config_root {
                Some(c) => Some(c@),
                None => None,
            },
        ),
{
    let ghost all = locations_view(locations@);
    let mut roots: Vec<StartupIndexRootSeed> = Vec::new();
    let mut i: usize = 0;
    while i < locations.len()
        invariant
            i <= locations@.len(),
            all == locations_view(locations@),
            seeds_view(roots@) == common_seeds(all.take(i as int)),
        decreases locations.len() - i,
    {
        let location = &locations[i];
        proof {
            assert(all.take(i + 1).drop_last() =~= all.take(i as int));
            assert(all.take(i + 1).last() == location@);
        }
        if startup_index_default_root_kind(location.kind) && !seed_path_listed(&roots, &location.path) {
            let ghost before = seeds_view(roots@);
            roots.push(
                StartupIndexRootSeed {
                    label: location.label.clone(),
                    path: location.path.copy(),
                    selection: StartupIndexEntrySelection::Selected,
                },
            );
            proof {
                assert(seeds_view(roots@) =~= before.push(seed_of(location@)));
            }
        }
        i = i + 1;
    }
    proof {
        assert(all.take(i as int) =~= all);
    }
    if let Some(config) = config_root {
        if !seed_path_listed(&roots, &config.path) {
            let ghost before = seeds_view(roots@);
            let ghost c = config@;
            roots.push(config);
            proof {
                assert(seeds_view(roots@) =~= before.push(c));
            }
        }
    }
    roots
}

/// The first home location, if any.
pub open spec fn home_location(locations: Seq<LocationModel>) -> Option<LocationModel> {
    match locations.map_values(|l: LocationModel| l.kind == SidebarLocationKind::Home).index_of_first(true) {
        Some(i) => Some(locations[i]),
        None => None,
    }
}

/// The position of the first home location.
pub fn home_location_index(locations: &[SidebarLocation]) -> (r: Option<usize>)
    ensures
        match r {
            Some(i) => locations_view(locations@).map_values(|l: LocationModel| l.kind == SidebarLocationKind::Home).index_of_first(true)
                == Some(i as int),
            None => locations_view(locations@).map_values(|l: LocationModel| l.kind == SidebarLocationKind::Home).index_of_first(true) is None,
        },
{
    let ghost flags = locations_view(locations@).map_values(|l: LocationModel| l.kind == SidebarLocationKind::Home);
    proof {
        flags.index_of_first_ensures(true);
    }
    let mut i: usize = 0;
    while i < locations.len()
        invariant
            i <= locations@.len(),
            flags == locations_view(locations@).map_values(|l: LocationModel| l.kind == SidebarLocationKind::Home),
            forall|j: int| 0 <= j < i ==> flags[j] != true,
        decreases locations.len() - i,
    {
        proof {
            assert(flags[i as int] == (locations@[i as int].kind == SidebarLocationKind::Home));
        }
        if locations[i].kind == SidebarLocationKind::Home {
            proof {
                flags.index_of_first_ensures(true);
                assert(flags.contains(true));
                let k = flags.index_of_first(true).unwrap();
                if k < i {
                    assert(flags[k] != true);
                }
                if k > i {
                    assert(flags[i as int] != true);
                }
            }
            return Some(i);
        }
        i = i + 1;
    }
    proof {
        if flags.contains(true) {
            let k = choose|k: int| 0 <= k < flags.len() && flags[k] == true;
            assert(flags[k] != true);
        }
    }
    None
}

/// The custom root offered for indexing: the home location, not selected.
pub fn startup_index_custom_root_seed(locations: &[SidebarLocation]) -> (r: Option<StartupIndexRootSeed>)
    ensures
        match home_location(locations_view(locations@)) {
            Some(home) => r matches Some(s) && s@ == (SeedModel {
                label: home.label,
                path: home.path,
                selection: StartupIndexEntrySelection::Skipped,
            }),
            None => r is None,
        },
{
    let found = home_location_index(locations);
    proof {
        locations_view(locations@).map_values(|l: LocationModel| l.kind == SidebarLocationKind::Home).index_of_first_ensures(
            true,
        );
    }
    match found {
        Some(i) => Some(
            StartupIndexRootSeed {
                label: locations[i].label.clone(),
                path: locations[i].path.copy(),
                selection: StartupIndexEntrySelection::Skipped,
            },
        ),
        None => None,
    }
}

/// The path of the first home location, if any.
pub fn startup_index_home(locations: &[SidebarLocation]) -> (r: Option<FsPath>)
    ensures
        match home_location(locations_view(locations@)) {
            Some(home) => r matches Some(p) && p@ == home.path,
            None => r is None,
        },
{
    let found = home_location_index(locations);
    proof {
        locations_view(locations@).map_values(|l: LocationModel| l.kind == SidebarLocationKind::Home).index_of_first_ensures(
            true,
        );
    }
    match found {
        Some(i) => Some(locations[i].path.copy()),
        None => None,
    }
}

/// The configuration directory as a root: offered, selected, when there is
/// a home and a configuration directory, and the latter exists
/// (`path_exists`) inside home.
pub fn startup_index_config_root_seed_from_path(
    home: Option<&FsPath>,
    path: Option<FsPath>,
    path_exists: bool,
) -> (r: Option<StartupIndexRootSeed>)
    ensures
        match (home, path) {
            (Some(h), Some(p)) => if path_exists && path_starts_with(p@, h@) {
                r matches Some(s) && s@ == (SeedModel {
                    label: config_root_label(),
                    path: p@,
                    selection: StartupIndexEntrySelection::Selected,
                })
            } else {
                r is None
            },
            _ => r is None,
        },
{
    let home = match home {
        Some(h) => h,
        None => return None,
    };
    let path = match path {
        Some(p) => p,
        None => return None,
    };
    if !path_exists || !path.starts_with(home) {
        return None;
    }
    let label = String::from_str("User Config");
    proof {
        reveal_strlit("User Config");
    }
    Some(StartupIndexRootSeed { label, path, selection: StartupIndexEntrySelection::Selected })
}

/// The roots offered at first start: the common roots with the
/// configuration root ([`startup_index_common_root_seeds`]) and the home
/// location as the custom root ([`startup_index_custom_root_seed`]).
pub fn startup_index_root_choices(
    locations: &[SidebarLocation],
    config_root: Option<StartupIndexRootSeed>,
) -> (r: (Vec<StartupIndexRootSeed>, Option<StartupIndexRootSeed>))
    ensures
        seeds_view(r.0@) == common_seeds_with_config(
            locations_view(locations@),
            match config_root {
                Some(c) => Some(c@),
                None => None,
            },
        ),
        match home_location(locations_view(locations@)) {
            Some(home) => r.1 matches Some(s) && s@ == (SeedModel {
                label: home.label,
                path: home.path,
                selection: StartupIndexEntrySelection::Skipped,
            }),
            None => r.1 is None,
        },
{
    let common = startup_index_common_root_seeds(locations, config_root);
    let custom = startup_index_custom_root_seed(locations);
    (common, custom)
}

/// One row of the first-start directory tree: its parent row, and whether
/// it is open or still opening (its disclosure arrow has started turning).
#[derive(Debug, Clone, Copy, PartialEq, Eq, Structural)]
pub struct StartupIndexTreeEntry {
    pub id: usize,
    pub parent: Option<usize>,
    pub is_expanded: bool,
    pub is_opening: bool,
}

/// Every row's parent comes before it.
pub open spec fn parents_precede(entries: Seq<StartupIndexTreeEntry>) -> bool {
    forall|i: int| 0 <= i < entries.len() ==> ((#[trigger] entries[i]).parent matches Some(p) ==> p < i)
}

/// Every ancestor from `parent` up is listed and open or opening.
pub open spec fn ancestors_shown(entries: Seq<StartupIndexTreeEntry>, parent: Option<usize>) -> bool
    decreases (match parent {
        Some(p) => p + 1,
        None => 0,
    }),
{
    match parent {
        None => true,
        Some(p) => if p < entries.len() {
            let e = entries[p as int];
            (e.is_expanded || e.is_opening) && (match e.parent {
                Some(q) => q < p && ancestors_shown(entries, e.parent),
                None => true,
            })
        } else {
            false
        },
    }
}

/// A row shows when all its ancestors are listed and open or opening.
pub fn startup_index_entry_visible(entry: &StartupIndexTreeEntry, entries: &[StartupIndexTreeEntry]) -> (r: bool)
    requires
        parents_precede(entries@),
    ensures
        r == ancestors_shown(entries@, entry.parent),
{
    let mut parent = entry.parent;
    while parent.is_some()
        invariant
            parents_precede(entries@),
            ancestors_shown(entries@, entry.parent) == ancestors_shown(entries@, parent),
        decreases (match parent {
            Some(p) => p + 1,
            None => 0,
        }),
    {
        let parent_id = parent.unwrap();
        if parent_id >= entries.len() {
            return false;
        }
        let parent_entry = entries[parent_id];
        if !(parent_entry.is_expanded || parent_entry.is_opening) {
            return false;
        }
        proof {
            assert(entries@[parent_id as int] == parent_entry);
        }
        parent = parent_entry.parent;
    }
    true
}

/// The ids of the rows that show, in order.
pub open spec fn visible_ids(entries: Seq<StartupIndexTreeEntry>, all: Seq<StartupIndexTreeEntry>) -> Seq<usize>
    decreases entries.len(),
{
    if entries.len() == 0 {
        Seq::empty()
    } else {
        let rest = visible_ids(entries.drop_last(), all);
        if ancestors_shown(all, entries.last().parent) {
            rest.push(entries.last().id)
        } else {
            rest
        }
    }
}

/// The ids of the rows that show: see [`startup_index_entry_visible`].
pub fn startup_index_visible_entry_ids(entries: &[StartupIndexTreeEntry]) -> (r: Vec<usize>)
    requires
        parents_precede(entries@),
    ensures
        r@ == visible_ids(entries@, entries@),
{
    let mut r: Vec<usize> = Vec::new();
    let mut i: usize = 0;
    while i < entries.len()
        invariant
            i <= entries@.len(),
            parents_precede(entries@),
            r@ == visible_ids(entries@.take(i as int), entries@),
        decreases entries.len() - i,
    {
        proof {
            assert(entries@.take(i + 1).drop_last() =~= entries@.take(i as int));
            assert(entries@.take(i + 1).last() == entries@[i as int]);
        }
        if startup_index_entry_visible(&entries[i], entries) {
            r.push(entries[i].id);
        }
        i = i + 1;
    }
    proof {
        assert(entries@.take(i as int) =~= entries@);
    }
    r
}

} // verus!
