use vstd::prelude::*;

use crate::browser::{BrowserTab, FileBrowser};
use crate::tab_state::{tab_ids, tabs_view};
use crate::model::BrowserPaneId;

verus! {

/// The animations a tab is running.
#[derive(Debug, Clone, Copy, PartialEq, Eq, Structural)]
pub struct TabAnimationState {
    pub tab_id: usize,
    pub intro: bool,
    pub closing: bool,
    pub shifting: bool,
}

/// The tab bar's reveal state.
#[derive(Debug, Clone, Copy, PartialEq, Eq, Structural)]
pub enum TabBarReveal {
    Hidden,
    Opening,
    Visible,
    Closing,
}

/// What a tab drag does when released.
#[derive(Debug, Clone, Copy, PartialEq, Eq, Structural)]
pub enum TabDragMode {
    Reorder,
    Split,
}

/// The side of the window a split drag would place the tab on.
#[derive(Debug, Clone, Copy, PartialEq, Eq, Structural)]
pub enum SplitRegion {
    Left,
    Right,
    Top,
    Bottom,
}

/// A press on a tab, and whether it has moved far enough to drag.
#[derive(Debug, Clone, Copy, PartialEq, Eq, Structural)]
pub struct TabDragState {
    pub source_pane_id: BrowserPaneId,
    pub tab_id: usize,
    pub dragging: bool,
    pub mode: TabDragMode,
    pub split_target: Option<SplitRegion>,
}


impl FileBrowser {
    /// The tab runs its closing animation.
    pub open spec fn closing_tab(&self, tab_id: usize) -> bool {
        exists|i: int| 0 <= i < self.tab_animations@.len()
            && (#[trigger] self.tab_animations@[i]).tab_id == tab_id
            && self.tab_animations@[i].closing
    }

    /// The tab runs its closing animation.
    pub fn tab_is_closing(&self, tab_id: usize) -> (r: bool)
        ensures
            r == self.closing_tab(tab_id),
    {
        let mut i: usize = 0;
        while i < self.tab_animations.len()
            invariant
                i <= self.tab_animations.len(),
                forall|j: int| 0 <= j < i ==> !((#[trigger] self.tab_animations@[j]).tab_id == tab_id
                    && self.tab_animations@[j].closing),
            decreases self.tab_animations.len() - i,
        {
            if self.tab_animations[i].tab_id == tab_id && self.tab_animations[i].closing {
                return true;
            }
            i = i + 1;
        }
        false
    }
}


/// The ids of the tabs that the animations belong to, in order.
pub open spec fn animation_ids(animations: Seq<TabAnimationState>) -> Seq<usize> {
    animations.map_values(|a: TabAnimationState| a.tab_id)
}

/// The first position of `id` among `ids`.
pub fn find_id(ids: &Vec<usize>, id: usize) -> (r: Option<usize>)
    ensures
        match r {
            Some(i) => ids@.index_of_first(id) == Some(i as int),
            None => ids@.index_of_first(id) is None,
        },
{
    proof {
        ids@.index_of_first_ensures(id);
    }
    let mut i: usize = 0;
    while i < ids.len()
        invariant
            i <= ids@.len(),
            forall|j: int| 0 <= j < i ==> ids@[j] != id,
        decreases ids.len() - i,
    {
        if ids[i] == id {
            proof {
                ids@.index_of_first_ensures(id);
                assert(ids@.contains(id));
                let k = ids@.index_of_first(id).unwrap();
                if k < i {
                    assert(ids@[k] != id);
                }
                if k > i {
                    assert(ids@[i as int] != id);
                }
            }
            return Some(i);
        }
        i = i + 1;
    }
    proof {
        if ids@.contains(id) {
            let k = choose|k: int| 0 <= k < ids@.len() && ids@[k] == id;
            assert(ids@[k] != id);
        }
    }
    None
}

/// The ids of the animations, in order.
pub fn animation_id_list(animations: &Vec<TabAnimationState>) -> (r: Vec<usize>)
    ensures
        r@ == animation_ids(animations@),
{
    let mut r: Vec<usize> = Vec::new();
    let mut i: usize = 0;
    while i < animations.len()
        invariant
            i <= animations@.len(),
            r@ == animation_ids(animations@).take(i as int),
        decreases animations.len() - i,
    {
        r.push(animations[i].tab_id);
        proof {
            assert(animation_ids(animations@).take(i + 1) =~= animation_ids(animations@).take(i as int).push(
                animations@[i as int].tab_id,
            ));
        }
        i = i + 1;
    }
    assert(animation_ids(animations@).take(i as int) =~= animation_ids(animations@));
    r
}

/// The ids of a list of tabs.
pub fn tab_id_list(tabs: &Vec<BrowserTab>) -> (r: Vec<usize>)
    ensures
        r@ == tab_ids(tabs_view(tabs@)),
{
    let mut r: Vec<usize> = Vec::new();
    let mut i: usize = 0;
    while i < tabs.len()
        invariant
            i <= tabs@.len(),
            r@ == tab_ids(tabs_view(tabs@)).take(i as int),
        decreases tabs.len() - i,
    {
        r.push(tabs[i].id);
        proof {
            assert(tab_ids(tabs_view(tabs@)).take(i + 1) =~= tab_ids(tabs_view(tabs@)).take(i as int).push(
                tabs@[i as int].id,
            ));
        }
        i = i + 1;
    }
    assert(tab_ids(tabs_view(tabs@)).take(i as int) =~= tab_ids(tabs_view(tabs@)));
    r
}

/// Which of a tab's animations a change starts.
#[derive(Debug, Clone, Copy, PartialEq, Eq, Structural)]
pub enum TabAnimationKind {
    Intro,
    Close,
    Shift,
}

/// `animation` with the animation of `kind` started.
pub open spec fn with_started(animation: TabAnimationState, kind: TabAnimationKind) -> TabAnimationState {
    match kind {
        TabAnimationKind::Intro => TabAnimationState { intro: true, ..animation },
        TabAnimationKind::Close => TabAnimationState { closing: true, ..animation },
        TabAnimationKind::Shift => TabAnimationState { shifting: true, ..animation },
    }
}

/// The animations after one of `kind` starts for `tab_id`: the tab's entry
/// (the first with its id) gains it, or a new entry with only it is added.
pub open spec fn animations_started(
    animations: Seq<TabAnimationState>,
    tab_id: usize,
    kind: TabAnimationKind,
) -> Seq<TabAnimationState> {
    match animation_ids(animations).index_of_first(tab_id) {
        Some(i) => animations.update(i, with_started(animations[i], kind)),
        None => animations.push(
            with_started(TabAnimationState { tab_id, intro: false, closing: false, shifting: false }, kind),
        ),
    }
}

/// The animations after those of `kind` start for each of `tab_ids` in turn.
pub open spec fn animations_started_all(
    animations: Seq<TabAnimationState>,
    tab_ids: Seq<usize>,
    kind: TabAnimationKind,
) -> Seq<TabAnimationState>
    decreases tab_ids.len(),
{
    if tab_ids.len() == 0 {
        animations
    } else {
        animations_started(animations_started_all(animations, tab_ids.drop_last(), kind), tab_ids.last(), kind)
    }
}

/// Counts the tabs that are not closing.
pub open spec fn count_open(tabs: Seq<BrowserTab>, animations: Seq<TabAnimationState>) -> nat
    decreases tabs.len(),
{
    if tabs.len() == 0 {
        0
    } else {
        count_open(tabs.drop_last(), animations) + if closing_in(animations, tabs.last().id) {
            0nat
        } else {
            1nat
        }
    }
}

/// Some animation of `tab_id` in `animations` is a closing one.
pub open spec fn closing_in(animations: Seq<TabAnimationState>, tab_id: usize) -> bool {
    exists|i: int| 0 <= i < animations.len() && (#[trigger] animations[i]).tab_id == tab_id && animations[i].closing
}

/// The animations kept by a prune: those of tabs still listed whose
/// animation has not finished.
pub open spec fn kept_animations(
    animations: Seq<TabAnimationState>,
    listed: Seq<usize>,
    finished: Seq<usize>,
) -> Seq<TabAnimationState> {
    animations.filter(|a: TabAnimationState| listed.contains(a.tab_id) && !finished.contains(a.tab_id))
}

proof fn lemma_kept_animations_step(s: Seq<TabAnimationState>, listed: Seq<usize>, finished: Seq<usize>, i: int)
    requires
        0 <= i < s.len(),
    ensures
        kept_animations(s.take(i + 1), listed, finished) == if listed.contains(s[i].tab_id) && !finished.contains(
            s[i].tab_id,
        ) {
            kept_animations(s.take(i), listed, finished).push(s[i])
        } else {
            kept_animations(s.take(i), listed, finished)
        },
{
    reveal(Seq::filter);
    assert(s.take(i + 1).drop_last() =~= s.take(i));
}

/// A tab that is not the closing one and is not closing itself.
pub open spec fn adjacent_candidate(browser: FileBrowser, tab: BrowserTab, closing_tab_id: usize) -> bool {
    tab.id != closing_tab_id && !browser.closing_tab(tab.id)
}

/// The tab that takes over from a closing one: the nearest open tab before
/// it, else the nearest open tab after it.
pub open spec fn adjacent_tab(browser: FileBrowser, closing_index: int, closing_tab_id: usize) -> Option<usize> {
    let tabs = browser.tabs@;
    if exists|j: int| 0 <= j < closing_index && adjacent_candidate(browser, #[trigger] tabs[j], closing_tab_id) {
        let j = choose|j: int|
            0 <= j < closing_index && adjacent_candidate(browser, #[trigger] tabs[j], closing_tab_id)
                && forall|k: int| j < k < closing_index ==> !adjacent_candidate(browser, #[trigger] tabs[k], closing_tab_id);
        Some(tabs[j].id)
    } else if exists|j: int| closing_index < j < tabs.len() && adjacent_candidate(browser, #[trigger] tabs[j], closing_tab_id) {
        let j = choose|j: int|
            closing_index < j < tabs.len() && adjacent_candidate(browser, #[trigger] tabs[j], closing_tab_id)
                && forall|k: int| closing_index < k < j ==> !adjacent_candidate(browser, #[trigger] tabs[k], closing_tab_id);
        Some(tabs[j].id)
    } else {
        None
    }
}

impl FileBrowser {
    /// The tab bar is sliding in or out.
    pub fn tab_bar_reveal_animation_is_active(&self) -> (r: bool)
        ensures
            r == (self.tab_bar_reveal == TabBarReveal::Opening || self.tab_bar_reveal == TabBarReveal::Closing),
    {
        self.tab_bar_reveal == TabBarReveal::Opening || self.tab_bar_reveal == TabBarReveal::Closing
    }

    /// Some tab animation is still listed.
    pub fn tab_animation_is_active(&self) -> (r: bool)
        ensures
            r == (self.tab_animations@.len() > 0),
    {
        self.tab_animations.len() > 0
    }

    /// Ends a reveal animation that the window layer found finished: an
    /// opening bar becomes visible, a closing one hidden.
    pub fn advance_tab_bar_reveal_animation(&mut self, finished: bool)
        ensures
            final(self).tab_bar_reveal == if finished && old(self).tab_bar_reveal == TabBarReveal::Opening {
                TabBarReveal::Visible
            } else if finished && old(self).tab_bar_reveal == TabBarReveal::Closing {
                TabBarReveal::Hidden
            } else {
                old(self).tab_bar_reveal
            },
            *final(self) == (FileBrowser { tab_bar_reveal: final(self).tab_bar_reveal, ..*old(self) }),
    {
        if finished {
            if self.tab_bar_reveal == TabBarReveal::Opening {
                self.tab_bar_reveal = TabBarReveal::Visible;
            } else if self.tab_bar_reveal == TabBarReveal::Closing {
                self.tab_bar_reveal = TabBarReveal::Hidden;
            }
        }
    }

    /// Starts showing the tab bar unless it is shown or opening.
    pub fn reveal_tab_bar(&mut self)
        ensures
            final(self).tab_bar_reveal == if old(self).tab_bar_reveal == TabBarReveal::Visible
                || old(self).tab_bar_reveal == TabBarReveal::Opening {
                old(self).tab_bar_reveal
            } else {
                TabBarReveal::Opening
            },
            *final(self) == (FileBrowser { tab_bar_reveal: final(self).tab_bar_reveal, ..*old(self) }),
    {
        if self.tab_bar_reveal == TabBarReveal::Visible || self.tab_bar_reveal == TabBarReveal::Opening {
            return;
        }
        self.tab_bar_reveal = TabBarReveal::Opening;
    }

    /// Starts hiding the tab bar unless it is hidden or closing.
    pub fn hide_tab_bar(&mut self)
        ensures
            final(self).tab_bar_reveal == if old(self).tab_bar_reveal == TabBarReveal::Hidden
                || old(self).tab_bar_reveal == TabBarReveal::Closing {
                old(self).tab_bar_reveal
            } else {
                TabBarReveal::Closing
            },
            *final(self) == (FileBrowser { tab_bar_reveal: final(self).tab_bar_reveal, ..*old(self) }),
    {
        if self.tab_bar_reveal == TabBarReveal::Hidden || self.tab_bar_reveal == TabBarReveal::Closing {
            return;
        }
        self.tab_bar_reveal = TabBarReveal::Closing;
    }

    /// The tab bar is shown while more than one tab is listed.
    pub open spec fn synced_reveal(&self) -> TabBarReveal {
        if self.tabs@.len() > 1 {
            if self.tab_bar_reveal == TabBarReveal::Visible || self.tab_bar_reveal == TabBarReveal::Opening {
                self.tab_bar_reveal
            } else {
                TabBarReveal::Opening
            }
        } else {
            if self.tab_bar_reveal == TabBarReveal::Hidden || self.tab_bar_reveal == TabBarReveal::Closing {
                self.tab_bar_reveal
            } else {
                TabBarReveal::Closing
            }
        }
    }

    /// Shows the tab bar when more than one tab is listed, hides it otherwise.
    pub fn sync_tab_bar_visibility(&mut self)
        ensures
            final(self).tab_bar_reveal == old(self).synced_reveal(),
            *final(self) == (FileBrowser { tab_bar_reveal: final(self).tab_bar_reveal, ..*old(self) }),
    {
        if self.tabs.len() > 1 {
            self.reveal_tab_bar();
        } else {
            self.hide_tab_bar();
        }
    }

    /// The number of tabs that are not closing.
    pub fn open_tab_count(&self) -> (n: usize)
        ensures
            n == count_open(self.tabs@, self.tab_animations@),
    {
        let mut n: usize = 0;
        let mut i: usize = 0;
        while i < self.tabs.len()
            invariant
                i <= self.tabs@.len(),
                n == count_open(self.tabs@.take(i as int), self.tab_animations@),
                n <= i,
            decreases self.tabs.len() - i,
        {
            proof {
                assert(self.tabs@.take(i + 1).drop_last() =~= self.tabs@.take(i as int));
            }
            if !self.tab_is_closing(self.tabs[i].id) {
                n = n + 1;
            }
            i = i + 1;
        }
        proof {
            assert(self.tabs@.take(i as int) =~= self.tabs@);
        }
        n
    }

    /// The tab that takes over from the closing tab at `closing_index`: see [`adjacent_tab`].
    pub fn adjacent_open_tab_id(&self, closing_index: usize, closing_tab_id: usize) -> (r: Option<usize>)
        requires
            closing_index < self.tabs@.len(),
        ensures
            r == adjacent_tab(*self, closing_index as int, closing_tab_id),
            r matches Some(t) ==> t != closing_tab_id && !self.closing_tab(t),
    {
        let ghost me = *self;
        let n = self.tabs.len();
        let mut i: usize = closing_index;
        while i > 0
            invariant
                i <= closing_index < self.tabs@.len(),
                me == *self,
                forall|k: int| i <= k < closing_index ==> !adjacent_candidate(me, #[trigger] self.tabs@[k], closing_tab_id),
            decreases i,
        {
            i = i - 1;
            let tab = &self.tabs[i];
            if tab.id != closing_tab_id && !self.tab_is_closing(tab.id) {
                proof {
                    assert(adjacent_candidate(me, self.tabs@[i as int], closing_tab_id));
                    let j = choose|j: int|
                        0 <= j < closing_index && adjacent_candidate(me, #[trigger] self.tabs@[j], closing_tab_id)
                            && forall|k: int| j < k < closing_index ==> !adjacent_candidate(me, #[trigger] self.tabs@[k], closing_tab_id);
                    if j < i {
                        assert(!adjacent_candidate(me, self.tabs@[i as int], closing_tab_id));
                    }
                    if j > i {
                        assert(!adjacent_candidate(me, self.tabs@[j], closing_tab_id));
                    }
                }
                return Some(tab.id);
            }
        }
        let mut j: usize = closing_index + 1;
        while j < self.tabs.len()
            invariant
                closing_index < j <= self.tabs@.len(),
                me == *self,
                forall|k: int| 0 <= k < closing_index ==> !adjacent_candidate(me, #[trigger] self.tabs@[k], closing_tab_id),
                forall|k: int| closing_index < k < j ==> !adjacent_candidate(me, #[trigger] self.tabs@[k], closing_tab_id),
            decreases self.tabs.len() - j,
        {
            let tab = &self.tabs[j];
            if tab.id != closing_tab_id && !self.tab_is_closing(tab.id) {
                proof {
                    assert(adjacent_candidate(me, self.tabs@[j as int], closing_tab_id));
                    let c = choose|c: int|
                        closing_index < c < self.tabs@.len() && adjacent_candidate(me, #[trigger] self.tabs@[c], closing_tab_id)
                            && forall|k: int| closing_index < k < c ==> !adjacent_candidate(me, #[trigger] self.tabs@[k], closing_tab_id);
                    if c < j {
                        assert(!adjacent_candidate(me, self.tabs@[c], closing_tab_id));
                    }
                    if c > j {
                        assert(!adjacent_candidate(me, self.tabs@[j as int], closing_tab_id));
                    }
                }
                return Some(tab.id);
            }
            j = j + 1;
        }
        None
    }

    /// The ids of the tabs that a tab moving from `dragged_index` to
    /// `entered_index` passes over.
    pub fn shifted_tab_ids_for_reorder(&self, dragged_index: usize, entered_index: usize) -> (r: Vec<usize>)
        requires
            dragged_index < entered_index ==> entered_index < self.tabs@.len(),
            dragged_index >= entered_index ==> dragged_index <= self.tabs@.len(),
        ensures
            r@ == if dragged_index < entered_index {
                tab_ids(tabs_view(self.tabs@)).subrange(dragged_index + 1, entered_index + 1)
            } else {
                tab_ids(tabs_view(self.tabs@)).subrange(entered_index as int, dragged_index as int)
            },
    {
        let n = self.tabs.len();
        let (start, end) = if dragged_index < entered_index {
            (dragged_index + 1, entered_index + 1)
        } else {
            (entered_index, dragged_index)
        };
        let ghost ids = tab_ids(tabs_view(self.tabs@));
        let mut r: Vec<usize> = Vec::new();
        let mut i: usize = start;
        while i < end
            invariant
                start <= i <= end,
                end <= self.tabs@.len(),
                ids == tab_ids(tabs_view(self.tabs@)),
                r@ == ids.subrange(start as int, i as int),
            decreases end - i,
        {
            r.push(self.tabs[i].id);
            proof {
                assert(r@ =~= ids.subrange(start as int, i + 1));
            }
            i = i + 1;
        }
        r
    }

    /// Starts an animation of `kind` for `tab_id`: see [`animations_started`].
    pub fn start_tab_animation(&mut self, tab_id: usize, kind: TabAnimationKind)
        ensures
            final(self).tab_animations@ == animations_started(old(self).tab_animations@, tab_id, kind),
            *final(self) == (FileBrowser { tab_animations: final(self).tab_animations, ..*old(self) }),
    {
        let ids = animation_id_list(&self.tab_animations);
        let found = find_id(&ids, tab_id);
        proof {
            ids@.index_of_first_ensures(tab_id);
        }
        match found {
            Some(i) => {
                let mut animation = self.tab_animations[i];
                match kind {
                    TabAnimationKind::Intro => animation.intro = true,
                    TabAnimationKind::Close => animation.closing = true,
                    TabAnimationKind::Shift => animation.shifting = true,
                }
                self.tab_animations.set(i, animation);
            },
            None => {
                let mut animation = TabAnimationState { tab_id, intro: false, closing: false, shifting: false };
                match kind {
                    TabAnimationKind::Intro => animation.intro = true,
                    TabAnimationKind::Close => animation.closing = true,
                    TabAnimationKind::Shift => animation.shifting = true,
                }
                self.tab_animations.push(animation);
            },
        }
    }

    /// Starts the intro animation of a new tab.
    pub fn start_tab_intro_animation(&mut self, tab_id: usize)
        ensures
            final(self).tab_animations@ == animations_started(old(self).tab_animations@, tab_id, TabAnimationKind::Intro),
            *final(self) == (FileBrowser { tab_animations: final(self).tab_animations, ..*old(self) }),
    {
        self.start_tab_animation(tab_id, TabAnimationKind::Intro)
    }

    /// Starts the closing animation of a tab; the tab counts as closing from now on.
    pub fn start_tab_close_animation(&mut self, tab_id: usize)
        ensures
            final(self).tab_animations@ == animations_started(old(self).tab_animations@, tab_id, TabAnimationKind::Close),
            *final(self) == (FileBrowser { tab_animations: final(self).tab_animations, ..*old(self) }),
    {
        self.start_tab_animation(tab_id, TabAnimationKind::Close)
    }

    /// Starts the shift animation of each tab a reordered tab passed over.
    pub fn start_tab_reorder_animations(&mut self, tab_ids: Vec<usize>)
        ensures
            final(self).tab_animations@ == animations_started_all(
                old(self).tab_animations@,
                tab_ids@,
                TabAnimationKind::Shift,
            ),
            *final(self) == (FileBrowser { tab_animations: final(self).tab_animations, ..*old(self) }),
    {
        let mut i: usize = 0;
        while i < tab_ids.len()
            invariant
                i <= tab_ids@.len(),
                self.tab_animations@ == animations_started_all(
                    old(self).tab_animations@,
                    tab_ids@.take(i as int),
                    TabAnimationKind::Shift,
                ),
                *self == (FileBrowser { tab_animations: self.tab_animations, ..*old(self) }),
            decreases tab_ids.len() - i,
        {
            proof {
                assert(tab_ids@.take(i + 1).drop_last() =~= tab_ids@.take(i as int));
            }
            self.start_tab_animation(tab_ids[i], TabAnimationKind::Shift);
            i = i + 1;
        }
        proof {
            assert(tab_ids@.take(i as int) =~= tab_ids@);
        }
    }

    /// Drops the animations of tabs no longer listed and those that the
    /// window layer found finished.
    pub fn prune_tab_animations(&mut self, finished: &Vec<usize>)
        ensures
            final(self).tab_animations@ == kept_animations(
                old(self).tab_animations@,
                tab_ids(tabs_view(old(self).tabs@)),
                finished@,
            ),
            *final(self) == (FileBrowser { tab_animations: final(self).tab_animations, ..*old(self) }),
    {
        let listed = tab_id_list(&self.tabs);
        let ghost all = self.tab_animations@;
        let mut kept: Vec<TabAnimationState> = Vec::new();
        let mut i: usize = 0;
        while i < self.tab_animations.len()
            invariant
                i <= self.tab_animations@.len(),
                all == self.tab_animations@,
                kept@ == kept_animations(all.take(i as int), listed@, finished@),
            decreases self.tab_animations.len() - i,
        {
            proof {
                lemma_kept_animations_step(all, listed@, finished@, i as int);
            }
            let animation = self.tab_animations[i];
            let in_listed = find_id(&listed, animation.tab_id).is_some();
            let in_finished = find_id(finished, animation.tab_id).is_some();
            proof {
                listed@.index_of_first_ensures(animation.tab_id);
                finished@.index_of_first_ensures(animation.tab_id);
            }
            if in_listed && !in_finished {
                kept.push(animation);
            }
            i = i + 1;
        }
        proof {
            assert(all.take(i as int) =~= all);
        }
        self.tab_animations = kept;
    }
}
} // verus!
