//! The collection of open tabs, which one is active, and the stack of
//! recently closed tabs.

use vstd::prelude::*;

use crate::browser::tab::{Tab, TabId, TabView};
use crate::location::{Url, UrlView};
use vstd::std_specs::iter::IteratorSpec;

verus! {

/// How many closed tabs a manager remembers.
pub const MAX_CLOSED_TABS: usize = 25;

/// A snapshot of a closed tab that can be restored.
pub struct ClosedTab {
    /// The URL the tab was showing when closed.
    pub url: Url,
    /// The title the tab had when closed.
    pub title: String,
    /// The index the tab occupied before closing.
    pub index: usize,
}

/// The model of a closed-tab snapshot.
pub struct ClosedTabView {
    pub url: UrlView,
    pub title: Seq<char>,
    pub index: usize,
}

impl View for ClosedTab {
    type V = ClosedTabView;

    open spec fn view(&self) -> ClosedTabView {
        ClosedTabView { url: self.url@, title: self.title@, index: self.index }
    }
}

/// The model of a tab manager.
pub struct TabManagerView {
    /// The open tabs, in tab-bar order.
    pub tabs: Seq<TabView>,
    /// Index of the active tab (0 when there are none).
    pub active_index: usize,
    /// Recently closed tabs, most recent last.
    pub closed: Seq<ClosedTabView>,
    /// How many closed tabs are remembered.
    pub max_closed: usize,
    /// The counter that the next tab id is taken from.
    pub next_id: u64,
}

/// The views of a sequence of tabs.
pub open spec fn tab_views(s: Seq<Tab>) -> Seq<TabView> {
    s.map_values(|t: Tab| t@)
}

/// Replacing one tab replaces its view.
proof fn lemma_tab_views_update(s: Seq<Tab>, i: int, x: Tab)
    requires
        0 <= i < s.len(),
    ensures
        tab_views(s.update(i, x)) == tab_views(s).update(i, x@),
{
    assert(tab_views(s.update(i, x)) =~= tab_views(s).update(i, x@));
}

/// The views of a sequence of closed-tab snapshots.
pub open spec fn closed_views(s: Seq<ClosedTab>) -> Seq<ClosedTabView> {
    s.map_values(|c: ClosedTab| c@)
}

/// `i` is the first position of a tab with id `id`.
pub open spec fn is_first_with_id(tabs: Seq<TabView>, id: TabId, i: int) -> bool {
    &&& 0 <= i < tabs.len()
    &&& tabs[i].id == id
    &&& forall|j: int| 0 <= j < i ==> tabs[j].id != id
}

/// Some tab has id `id`.
pub open spec fn has_id(tabs: Seq<TabView>, id: TabId) -> bool {
    exists|i: int| 0 <= i < tabs.len() && tabs[i].id == id
}

/// The position of the first tab with id `id`, or -1 if there is none.
pub open spec fn position_of(tabs: Seq<TabView>, id: TabId) -> int {
    if has_id(tabs, id) {
        choose|i: int| is_first_with_id(tabs, id, i)
    } else {
        -1
    }
}

/// Some tab with id `id` comes first among those with that id.
proof fn lemma_first_with_id_exists(tabs: Seq<TabView>, id: TabId, k: int)
    requires
        0 <= k < tabs.len(),
        tabs[k].id == id,
    ensures
        exists|i: int| is_first_with_id(tabs, id, i),
    decreases k,
{
    if forall|j: int| 0 <= j < k ==> tabs[j].id != id {
        assert(is_first_with_id(tabs, id, k));
    } else {
        let j = choose|j: int| 0 <= j < k && tabs[j].id == id;
        lemma_first_with_id_exists(tabs, id, j);
    }
}

/// Where a tab has id `id`, `position_of` finds the first such tab.
pub proof fn lemma_position_of(tabs: Seq<TabView>, id: TabId)
    requires
        has_id(tabs, id),
    ensures
        is_first_with_id(tabs, id, position_of(tabs, id)),
{
    let k = choose|k: int| 0 <= k < tabs.len() && tabs[k].id == id;
    lemma_first_with_id_exists(tabs, id, k);
}

/// The number of pinned tabs in `s`.
pub open spec fn count_pinned(s: Seq<TabView>) -> nat
    decreases s.len(),
{
    if s.len() == 0 {
        0
    } else {
        count_pinned(s.drop_last()) + if s.last().pinned { 1nat } else { 0nat }
    }
}

/// A freshly created tab showing `url`, with id `id`.
pub open spec fn fresh_tab(id: u64, url: UrlView) -> TabView {
    TabView {
        id: id_of(id),
        url,
        title: url.text,
        loading: false,
        can_go_back: false,
        can_go_forward: false,
        pinned: false,
        back: Seq::empty(),
        forward: Seq::empty(),
    }
}

/// The tab id whose value is `v`.
pub open spec fn id_of(v: u64) -> TabId {
    choose|t: TabId| t.value() == v
}

impl TabManagerView {
    /// The active index is in range (0 when there are no tabs), and the
    /// closed-tab stack stays within its bound.
    pub open spec fn wf(self) -> bool {
        &&& self.tabs.len() == 0 ==> self.active_index == 0
        &&& self.tabs.len() > 0 ==> self.active_index < self.tabs.len()
        &&& self.max_closed == MAX_CLOSED_TABS
        &&& self.closed.len() <= self.max_closed
    }

    /// The manager after adding a tab showing `url` at `at` and making it
    /// active.
    pub open spec fn inserted(self, at: int, url: UrlView) -> TabManagerView {
        TabManagerView {
            tabs: self.tabs.insert(at, fresh_tab(self.next_id, url)),
            active_index: at as usize,
            next_id: self.next_id.wrapping_add(1),
            ..self
        }
    }

    /// Where `add_tab_after_active` puts a new tab.
    pub open spec fn after_active_slot(self) -> int {
        if self.tabs.len() == 0 {
            0
        } else {
            self.active_index + 1
        }
    }

    /// The manager after closing the tab at `pos`: it is remembered (the
    /// oldest memory is dropped beyond the bound), removed, and the active
    /// index moves to keep pointing at a neighbour.
    pub open spec fn closed_at(self, pos: int) -> TabManagerView {
        let tab = self.tabs[pos];
        let pushed = self.closed.push(
            ClosedTabView { url: tab.url, title: tab.title, index: pos as usize },
        );
        let closed = if pushed.len() > self.max_closed {
            pushed.drop_first()
        } else {
            pushed
        };
        let tabs = self.tabs.remove(pos);
        let active = if tabs.len() == 0 {
            0
        } else if self.active_index >= tabs.len() {
            (tabs.len() - 1) as usize
        } else if pos < self.active_index {
            (self.active_index - 1) as usize
        } else {
            self.active_index
        };
        TabManagerView { tabs, active_index: active, closed, ..self }
    }

    /// The manager after restoring the most recently closed tab (unchanged
    /// when nothing is remembered).
    pub open spec fn restored(self) -> TabManagerView {
        if self.closed.len() == 0 {
            self
        } else {
            let c = self.closed.last();
            let at = if c.index <= self.tabs.len() {
                c.index as int
            } else {
                self.tabs.len() as int
            };
            TabManagerView { closed: self.closed.drop_last(), ..self.inserted(at, c.url) }
        }
    }

    /// The manager with the next tab active, wrapping around.
    pub open spec fn stepped_next(self) -> TabManagerView {
        if self.tabs.len() == 0 {
            self
        } else {
            TabManagerView {
                active_index: ((self.active_index + 1) % (self.tabs.len() as int)) as usize,
                ..self
            }
        }
    }

    /// The manager with the previous tab active, wrapping around.
    pub open spec fn stepped_prev(self) -> TabManagerView {
        if self.tabs.len() == 0 {
            self
        } else if self.active_index == 0 {
            TabManagerView { active_index: (self.tabs.len() - 1) as usize, ..self }
        } else {
            TabManagerView { active_index: (self.active_index - 1) as usize, ..self }
        }
    }

    /// The manager after moving the tab at `from` to `to` (unchanged when
    /// either index is out of range or they are equal); the active index
    /// follows the tab it pointed at.
    pub open spec fn reordered(self, from: int, to: int) -> TabManagerView {
        if from < 0 || to < 0 || from >= self.tabs.len() || to >= self.tabs.len() || from == to {
            self
        } else {
            let tabs = self.tabs.remove(from).insert(to, self.tabs[from]);
            let a = self.active_index as int;
            let active = if a == from {
                to
            } else if from < a && to >= a {
                a - 1
            } else if from > a && to <= a {
                a + 1
            } else {
                a
            };
            TabManagerView { tabs, active_index: active as usize, ..self }
        }
    }

    /// The manager after flipping the pin of the first tab with id `id` and
    /// moving it to the end of the pinned run (when pinned) or to just after
    /// the pinned tabs (when unpinned).
    pub open spec fn pin_toggled(self, id: TabId) -> TabManagerView {
        let pos = position_of(self.tabs, id);
        if pos < 0 {
            self
        } else {
            let t = self.tabs[pos];
            let tabs = self.tabs.update(pos, TabView { pinned: !t.pinned, ..t });
            let flipped = TabManagerView { tabs, ..self };
            if !t.pinned {
                flipped.reordered(pos, count_pinned(tabs.take(pos)) as int)
            } else {
                flipped.reordered(pos, count_pinned(tabs) as int)
            }
        }
    }
}

/// Manages the collection of open tabs and tracks which one is active:
/// creation, closing, switching, reordering, pinning, duplicating, and
/// restoring recently closed tabs.
pub struct TabManager {
    tabs: Vec<Tab>,
    active_index: usize,
    closed_tabs: Vec<ClosedTab>,
    max_closed: usize,
    next_id: u64,
}

impl View for TabManager {
    type V = TabManagerView;

    closed spec fn view(&self) -> TabManagerView {
        TabManagerView {
            tabs: tab_views(self.tabs@),
            active_index: self.active_index,
            closed: closed_views(self.closed_tabs@),
            max_closed: self.max_closed,
            next_id: self.next_id,
        }
    }
}

impl TabManager {
    /// Create an empty tab manager with no tabs.
    pub fn new() -> (m: TabManager)
        ensures
            m@.wf(),
            m@.tabs.len() == 0,
            m@.active_index == 0,
            m@.closed.len() == 0,
            m@.next_id == 1,
            ids_fresh(m@),
    {
        let m = TabManager {
            tabs: Vec::new(),
            active_index: 0,
            closed_tabs: Vec::new(),
            max_closed: MAX_CLOSED_TABS,
            next_id: 1,
        };
        proof {
            assert(tab_views(m.tabs@) =~= Seq::<TabView>::empty());
            assert(closed_views(m.closed_tabs@) =~= Seq::<ClosedTabView>::empty());
        }
        m
    }

    /// Number of open tabs.
    pub fn len(&self) -> (n: usize)
        ensures
            n == self@.tabs.len(),
    {
        self.tabs.len()
    }

    /// Whether there are no open tabs.
    pub fn is_empty(&self) -> (b: bool)
        ensures
            b == (self@.tabs.len() == 0),
    {
        self.tabs.len() == 0
    }

    /// A new tab showing `url`, with the next id.
    fn make_tab(&mut self, url: Url) -> (tab: Tab)
        ensures
            tab@ == fresh_tab(old(self)@.next_id, url@),
            tab.id.value() == old(self)@.next_id,
            final(self)@ == (TabManagerView {
                next_id: old(self)@.next_id.wrapping_add(1),
                ..old(self)@
            }),
    {
        let mut tab = Tab::new(url);
        tab.id = TabId::next(&mut self.next_id);
        proof {
            assert(tab@.id == id_of(old(self)@.next_id)) by {
                TabId::lemma_value_injective(tab@.id, id_of(old(self)@.next_id));
            }
            assert(tab@ =~= fresh_tab(old(self)@.next_id, url@));
        }
        tab
    }

    /// Insert `tab` at `at` and make it active.
    fn insert_active(&mut self, at: usize, tab: Tab)
        requires
            at <= old(self)@.tabs.len(),
        ensures
            final(self)@ == (TabManagerView {
                tabs: old(self)@.tabs.insert(at as int, tab@),
                active_index: at,
                ..old(self)@
            }),
    {
        self.tabs.insert(at, tab);
        self.active_index = at;
        proof {
            assert(tab_views(self.tabs@) =~= tab_views(old(self).tabs@).insert(at as int, tab@));
        }
    }

    /// Add a new tab at the end and make it active. Returns the new tab's id.
    pub fn add_tab(&mut self, url: Url) -> (id: TabId)
        requires
            old(self)@.wf(),
        ensures
            final(self)@ == old(self)@.inserted(old(self)@.tabs.len() as int, url@),
            final(self)@.wf(),
            id.value() == old(self)@.next_id,
            ids_fresh(old(self)@) ==> !has_id(old(self)@.tabs, id),
            ids_fresh(old(self)@) && old(self)@.next_id < u64::MAX ==> ids_fresh(final(self)@),
    {
        proof {
            if ids_fresh(old(self)@) && old(self)@.next_id < u64::MAX {
                lemma_inserted_ids_fresh(old(self)@, old(self)@.tabs.len() as int, url@);
            }
        }
        let tab = self.make_tab(url);
        let id = tab.id;
        proof {
            if ids_fresh(old(self)@) {
                lemma_counter_not_open(old(self)@, id);
            }
        }
        let at = self.tabs.len();
        self.insert_active(at, tab);
        id
    }

    /// Add a new tab immediately after the active tab (first, when there are
    /// none) and make it active. Returns its id.
    pub fn add_tab_after_active(&mut self, url: Url) -> (id: TabId)
        requires
            old(self)@.wf(),
        ensures
            final(self)@ == old(self)@.inserted(old(self)@.after_active_slot(), url@),
            final(self)@.wf(),
            id.value() == old(self)@.next_id,
            ids_fresh(old(self)@) ==> !has_id(old(self)@.tabs, id),
            ids_fresh(old(self)@) && old(self)@.next_id < u64::MAX ==> ids_fresh(final(self)@),
    {
        proof {
            if ids_fresh(old(self)@) && old(self)@.next_id < u64::MAX {
                lemma_inserted_ids_fresh(old(self)@, old(self)@.after_active_slot(), url@);
            }
        }
        let tab = self.make_tab(url);
        let id = tab.id;
        proof {
            if ids_fresh(old(self)@) {
                lemma_counter_not_open(old(self)@, id);
            }
        }
        let at = if self.tabs.len() == 0 {
            0
        } else {
            self.active_index + 1
        };
        self.insert_active(at, tab);
        id
    }

    /// The position of the first tab with id `id`.
    fn position(&self, id: TabId) -> (res: Option<usize>)
        ensures
            match res {
                Some(i) => is_first_with_id(self@.tabs, id, i as int) && position_of(
                    self@.tabs,
                    id,
                ) == i,
                None => !has_id(self@.tabs, id) && position_of(self@.tabs, id) == -1,
            },
    {
        let mut i: usize = 0;
        while i < self.tabs.len()
            invariant
                i <= self@.tabs.len(),
                forall|j: int| 0 <= j < i ==> self@.tabs[j].id != id,
            decreases self@.tabs.len() - i,
        {
            if self.tabs[i].id == id {
                proof {
                    assert(self@.tabs[i as int].id == id);
                    assert(is_first_with_id(self@.tabs, id, i as int));
                    let k = choose|k: int| is_first_with_id(self@.tabs, id, k);
                    assert(k == i);
                }
                return Some(i);
            }
            i = i + 1;
        }
        None
    }

    /// Close the tab with the given id: it is remembered for restoration and
    /// removed, and if it was active a neighbour becomes active (the one to
    /// the right, else the one to the left). Returns whether a tab was
    /// closed.
    pub fn close_tab(&mut self, id: TabId) -> (closed: bool)
        requires
            old(self)@.wf(),
        ensures
            closed == has_id(old(self)@.tabs, id),
            closed ==> final(self)@ == old(self)@.closed_at(position_of(old(self)@.tabs, id)),
            !closed ==> final(self)@ == old(self)@,
            final(self)@.wf(),
            closed ==> final(self)@.tabs.len() == old(self)@.tabs.len() - 1,
            ids_fresh(old(self)@) ==> ids_fresh(final(self)@),
            ids_fresh(old(self)@) ==> !has_id(final(self)@.tabs, id),
    {
        proof {
            if ids_fresh(old(self)@) && has_id(old(self)@.tabs, id) {
                lemma_closed_drops_id(old(self)@, id);
            }
            if has_id(old(self)@.tabs, id) {
                lemma_position_of(old(self)@.tabs, id);
            }
        }
        let pos = match self.position(id) {
            Some(p) => p,
            None => return false,
        };
        let snapshot = ClosedTab {
            url: self.tabs[pos].url.clone(),
            title: self.tabs[pos].title.clone(),
            index: pos,
        };
        self.closed_tabs.push(snapshot);
        if self.closed_tabs.len() > self.max_closed {
            self.closed_tabs.remove(0);
        }
        self.tabs.remove(pos);
        if self.tabs.len() == 0 {
            self.active_index = 0;
        } else if self.active_index >= self.tabs.len() {
            self.active_index = self.tabs.len() - 1;
        } else if pos < self.active_index {
            self.active_index = self.active_index - 1;
        }
        proof {
            let ghost v = old(self)@.closed_at(pos as int);
            assert(tab_views(self.tabs@) =~= old(self)@.tabs.remove(pos as int));
            assert(closed_views(self.closed_tabs@) =~= v.closed);
        }
        true
    }

    /// Close the active tab unless it is pinned. Returns whether a tab was
    /// closed.
    pub fn close_active_tab(&mut self) -> (closed: bool)
        requires
            old(self)@.wf(),
        ensures
            final(self)@.wf(),
            old(self)@.tabs.len() == 0 ==> !closed && final(self)@ == old(self)@,
            old(self)@.tabs.len() > 0 && old(self)@.tabs[old(self)@.active_index as int].pinned
                ==> !closed && final(self)@ == old(self)@,
            old(self)@.tabs.len() > 0 && !old(self)@.tabs[old(self)@.active_index as int].pinned
                ==> closed && final(self)@ == old(self)@.closed_at(
                position_of(old(self)@.tabs, old(self)@.tabs[old(self)@.active_index as int].id),
            ),
            closed ==> final(self)@.tabs.len() == old(self)@.tabs.len() - 1,
            ids_fresh(old(self)@) ==> ids_fresh(final(self)@),
            ids_fresh(old(self)@) && closed ==> !has_id(
                final(self)@.tabs,
                old(self)@.tabs[old(self)@.active_index as int].id,
            ),
    {
        if self.tabs.len() == 0 {
            return false;
        }
        let id = self.tabs[self.active_index].id;
        if self.tabs[self.active_index].pinned {
            return false;
        }
        proof {
            assert(self@.tabs[self.active_index as int].id == id);
        }
        self.close_tab(id)
    }

    /// Restore the most recently closed tab at its old position (or at the
    /// end, if fewer tabs are open now) and make it active. Returns the new
    /// tab's id, or `None` when no closed tab is remembered.
    pub fn restore_closed_tab(&mut self) -> (res: Option<TabId>)
        requires
            old(self)@.wf(),
        ensures
            final(self)@ == old(self)@.restored(),
            final(self)@.wf(),
            match res {
                Some(id) => {
                    &&& old(self)@.closed.len() > 0
                    &&& id.value() == old(self)@.next_id
                    &&& ids_fresh(old(self)@) ==> !has_id(old(self)@.tabs, id)
                },
                None => old(self)@.closed.len() == 0,
            },
            ids_fresh(old(self)@) && old(self)@.next_id < u64::MAX ==> ids_fresh(final(self)@),
    {
        proof {
            if ids_fresh(old(self)@) && old(self)@.next_id < u64::MAX {
                lemma_restored_ids_fresh(old(self)@);
            }
        }
        if self.closed_tabs.len() == 0 {
            return None;
        }
        let closed = match self.closed_tabs.pop() {
            Some(c) => c,
            None => return None,
        };
        proof {
            assert(closed_views(self.closed_tabs@) =~= old(self)@.closed.drop_last());
        }
        let ghost after_pop = self@;
        let tab = self.make_tab(closed.url);
        let id = tab.id;
        let at = if closed.index <= self.tabs.len() {
            closed.index
        } else {
            self.tabs.len()
        };
        self.insert_active(at, tab);
        proof {
            if ids_fresh(old(self)@) {
                lemma_counter_not_open(old(self)@, id);
            }
            assert(after_pop.closed =~= old(self)@.closed.drop_last());
            assert(self@ =~= old(self)@.restored());
        }
        Some(id)
    }

    /// The recently closed tabs, most recent last.
    pub fn closed_tabs(&self) -> (res: &[ClosedTab])
        ensures
            closed_views(res@) == self@.closed,
    {
        self.closed_tabs.as_slice()
    }

    /// Switch to the first tab with the given id. Returns whether it exists.
    pub fn switch_to(&mut self, id: TabId) -> (found: bool)
        requires
            old(self)@.wf(),
        ensures
            found == has_id(old(self)@.tabs, id),
            found ==> final(self)@ == (TabManagerView {
                active_index: position_of(old(self)@.tabs, id) as usize,
                ..old(self)@
            }),
            !found ==> final(self)@ == old(self)@,
            final(self)@.wf(),
            ids_fresh(old(self)@) ==> ids_fresh(final(self)@),
    {
        match self.position(id) {
            Some(p) => {
                self.active_index = p;
                true
            },
            None => false,
        }
    }

    /// Switch to the tab at `index`. Returns whether the index is valid.
    pub fn switch_to_index(&mut self, index: usize) -> (ok: bool)
        requires
            old(self)@.wf(),
        ensures
            ok == (index < old(self)@.tabs.len()),
            ok ==> final(self)@ == (TabManagerView { active_index: index, ..old(self)@ }),
            !ok ==> final(self)@ == old(self)@,
            final(self)@.wf(),
            ids_fresh(old(self)@) ==> ids_fresh(final(self)@),
    {
        if index < self.tabs.len() {
            self.active_index = index;
            true
        } else {
            false
        }
    }

    /// Move to the next tab, wrapping around.
    pub fn next_tab(&mut self)
        requires
            old(self)@.wf(),
        ensures
            final(self)@ == old(self)@.stepped_next(),
            final(self)@.wf(),
            ids_fresh(old(self)@) ==> ids_fresh(final(self)@),
    {
        if self.tabs.len() > 0 {
            self.active_index = (self.active_index + 1) % self.tabs.len();
        }
    }

    /// Move to the previous tab, wrapping around.
    pub fn prev_tab(&mut self)
        requires
            old(self)@.wf(),
        ensures
            final(self)@ == old(self)@.stepped_prev(),
            final(self)@.wf(),
            ids_fresh(old(self)@) ==> ids_fresh(final(self)@),
    {
        if self.tabs.len() > 0 {
            self.active_index = if self.active_index == 0 {
                self.tabs.len() - 1
            } else {
                self.active_index - 1
            };
        }
    }

    /// The active tab, if any.
    pub fn active_tab(&self) -> (res: Option<&Tab>)
        requires
            self@.wf(),
        ensures
            match res {
                Some(t) => self@.tabs.len() > 0 && t@ == self@.tabs[self@.active_index as int],
                None => self@.tabs.len() == 0,
            },
    {
        if self.active_index < self.tabs.len() {
            Some(&self.tabs[self.active_index])
        } else {
            None
        }
    }

    /// The active tab, for changing it in place.
    pub fn active_tab_mut(&mut self) -> (res: Option<&mut Tab>)
        requires
            old(self)@.wf(),
        ensures
            match res {
                Some(t) => {
                    &&& old(self)@.tabs.len() > 0
                    &&& t@ == old(self)@.tabs[old(self)@.active_index as int]
                    &&& final(self)@ == (TabManagerView {
                        tabs: old(self)@.tabs.update(old(self)@.active_index as int, final(t)@),
                        ..old(self)@
                    })
                },
                None => old(self)@.tabs.len() == 0 && final(self)@ == old(self)@,
            },
    {
        if self.active_index < self.tabs.len() {
            let i = self.active_index;
            let ghost before = self.tabs@;
            let t = &mut self.tabs[i];
            proof {
                lemma_tab_views_update(before, i as int, *final(t));
            }
            Some(t)
        } else {
            None
        }
    }

    /// The first tab with the given id.
    pub fn get_tab(&self, id: TabId) -> (res: Option<&Tab>)
        ensures
            match res {
                Some(t) => has_id(self@.tabs, id) && t@ == self@.tabs[position_of(self@.tabs, id)],
                None => !has_id(self@.tabs, id),
            },
    {
        match self.position(id) {
            Some(p) => Some(&self.tabs[p]),
            None => None,
        }
    }

    /// The first tab with the given id, for changing it in place.
    pub fn get_tab_mut(&mut self, id: TabId) -> (res: Option<&mut Tab>)
        ensures
            match res {
                Some(t) => {
                    &&& has_id(old(self)@.tabs, id)
                    &&& t@ == old(self)@.tabs[position_of(old(self)@.tabs, id)]
                    &&& final(self)@ == (TabManagerView {
                        tabs: old(self)@.tabs.update(position_of(old(self)@.tabs, id), final(t)@),
                        ..old(self)@
                    })
                },
                None => !has_id(old(self)@.tabs, id) && final(self)@ == old(self)@,
            },
    {
        match self.position(id) {
            Some(p) => {
                let ghost before = self.tabs@;
                let t = &mut self.tabs[p];
                proof {
                    lemma_tab_views_update(before, p as int, *final(t));
                }
                Some(t)
            },
            None => None,
        }
    }

    /// Iterate over all tabs, in tab-bar order.
    pub fn iter(&self) -> (it: std::slice::Iter<'_, Tab>)
        ensures
            tab_views(it.remaining().unref()) == self@.tabs,
    {
        self.tabs.iter()
    }

    /// Return the index of the active tab.
    pub fn active_index(&self) -> (i: usize)
        ensures
            i == self@.active_index,
    {
        self.active_index
    }

    /// The open tabs, in tab-bar order.
    pub fn tabs(&self) -> (res: &[Tab])
        ensures
            tab_views(res@) == self@.tabs,
    {
        self.tabs.as_slice()
    }

    /// Move the tab at `from` to `to`, keeping the same tab active. Nothing
    /// changes when either index is out of range or they are equal.
    pub fn reorder(&mut self, from: usize, to: usize)
        requires
            old(self)@.wf(),
        ensures
            final(self)@ == old(self)@.reordered(from as int, to as int),
            final(self)@.wf(),
            ids_fresh(old(self)@) ==> ids_fresh(final(self)@),
    {
        proof {
            if ids_fresh(old(self)@) {
                lemma_reordered_ids_fresh(old(self)@, from as int, to as int);
            }
        }
        if from >= self.tabs.len() || to >= self.tabs.len() || from == to {
            return;
        }
        let ghost moved = self@.tabs[from as int];
        let tab = self.tabs.remove(from);
        self.tabs.insert(to, tab);
        if self.active_index == from {
            self.active_index = to;
        } else if from < self.active_index && to >= self.active_index {
            self.active_index = self.active_index - 1;
        } else if from > self.active_index && to <= self.active_index {
            self.active_index = self.active_index + 1;
        }
        proof {
            assert(tab_views(self.tabs@) =~= old(self)@.tabs.remove(from as int).insert(
                to as int,
                moved,
            ));
        }
    }

    /// The number of pinned tabs among the first `n`.
    fn pinned_among_first(&self, n: usize) -> (c: usize)
        requires
            n <= self@.tabs.len(),
        ensures
            c == count_pinned(self@.tabs.take(n as int)),
    {
        let mut c: usize = 0;
        let mut i: usize = 0;
        while i < n
            invariant
                i <= n,
                n <= self@.tabs.len(),
                c == count_pinned(self@.tabs.take(i as int)),
                c <= i,
            decreases n - i,
        {
            proof {
                assert(self@.tabs.take(i + 1).drop_last() =~= self@.tabs.take(i as int));
            }
            if self.tabs[i].pinned {
                c = c + 1;
            }
            i = i + 1;
        }
        c
    }

    /// Return the number of pinned tabs.
    pub fn pinned_count(&self) -> (c: usize)
        ensures
            c == count_pinned(self@.tabs),
    {
        let c = self.pinned_among_first(self.tabs.len());
        proof {
            assert(self@.tabs.take(self@.tabs.len() as int) =~= self@.tabs);
        }
        c
    }

    /// Pin or unpin the first tab with the given id. A pinned tab moves to
    /// the end of the pinned run at the start of the tab bar; an unpinned tab
    /// moves to just after the pinned tabs.
    pub fn toggle_pin(&mut self, id: TabId)
        requires
            old(self)@.wf(),
        ensures
            final(self)@ == old(self)@.pin_toggled(id),
            final(self)@.wf(),
            ids_fresh(old(self)@) ==> ids_fresh(final(self)@),
    {
        proof {
            if ids_fresh(old(self)@) {
                lemma_pin_toggled_ids_fresh(old(self)@, id);
            }
        }
        let pos = match self.position(id) {
            Some(p) => p,
            None => return,
        };
        let ghost t = self@.tabs[pos as int];
        let was_pinned = self.tabs[pos].pinned;
        self.tabs[pos].toggle_pin();
        let ghost flipped = self@;
        proof {
            assert(tab_views(self.tabs@) =~= old(self)@.tabs.update(
                pos as int,
                TabView { pinned: !t.pinned, ..t },
            ));
        }
        if !was_pinned {
            let pinned_end = self.pinned_among_first(pos);
            self.reorder(pos, pinned_end);
        } else {
            let pinned_total = self.pinned_count();
            self.reorder(pos, pinned_total);
        }
    }

    /// Duplicate the active tab right after it and make the copy active.
    /// Returns the new tab's id, or `None` when there are no tabs.
    pub fn duplicate_active_tab(&mut self) -> (res: Option<TabId>)
        requires
            old(self)@.wf(),
        ensures
            final(self)@.wf(),
            match res {
                Some(id) => {
                    &&& old(self)@.tabs.len() > 0
                    &&& id.value() == old(self)@.next_id
                    &&& ids_fresh(old(self)@) ==> !has_id(old(self)@.tabs, id)
                    &&& final(self)@ == old(self)@.inserted(
                        old(self)@.after_active_slot(),
                        old(self)@.tabs[old(self)@.active_index as int].url,
                    )
                },
                None => old(self)@.tabs.len() == 0 && final(self)@ == old(self)@,
            },
            ids_fresh(old(self)@) && old(self)@.next_id < u64::MAX ==> ids_fresh(final(self)@),
    {
        if self.tabs.len() == 0 {
            return None;
        }
        let url = self.tabs[self.active_index].url.clone();
        Some(self.add_tab_after_active(url))
    }
}

impl Default for TabManager {
    fn default() -> (m: TabManager)
        ensures
            m@.wf(),
            m@.tabs.len() == 0,
            m@.active_index == 0,
            m@.closed.len() == 0,
            m@.next_id == 1,
            ids_fresh(m@),
    {
        TabManager::new()
    }
}

} // verus!

verus! {

/// Moving a tab keeps the same tab active and keeps the same tabs open.
pub proof fn lemma_reorder_keeps_active_tab(v: TabManagerView, from: int, to: int)
    requires
        v.wf(),
        v.tabs.len() > 0,
        v.tabs.len() <= usize::MAX,
    ensures
        v.reordered(from, to).wf(),
        v.reordered(from, to).tabs[v.reordered(from, to).active_index as int] == v.tabs[v.active_index as int],
        v.reordered(from, to).tabs.to_multiset() == v.tabs.to_multiset(),
{
    let r = v.reordered(from, to);
    if !(from < 0 || to < 0 || from >= v.tabs.len() || to >= v.tabs.len() || from == to) {
        let x = v.tabs[from];
        let removed = v.tabs.remove(from);
        let a = v.active_index as int;
        assert(r.tabs == removed.insert(to, x));
        if a == from {
        } else if from < a && to >= a {
            assert(removed[a - 1] == v.tabs[a]);
        } else if from > a && to <= a {
            assert(removed[a] == v.tabs[a]);
        } else if a < from {
            assert(removed[a] == v.tabs[a]);
        } else {
            assert(removed[a - 1] == v.tabs[a]);
        }
        let inserted = removed.insert(to, x);
        v.tabs.to_multiset_ensures();
        inserted.to_multiset_ensures();
        assert(inserted.remove(to) =~= removed);
        assert(inserted[to] == x);
        broadcast use vstd::multiset::group_multiset_axioms;
        let mv = v.tabs.to_multiset();
        let mi = inserted.to_multiset();
        assert(removed.to_multiset() =~= mv.remove(x));
        assert(removed.to_multiset() =~= mi.remove(x));
        assert(v.tabs.contains(x));
        assert(inserted.contains(x));
        assert(mv.count(x) > 0);
        assert(mi.count(x) > 0);
        assert forall|y: TabView| mi.count(y) == mv.count(y) by {
            if y == x {
                assert(mi.remove(x).count(x) == mv.remove(x).count(x));
            } else {
                assert(mi.remove(x).count(y) == mv.remove(x).count(y));
            }
        }
        assert(mi =~= mv);
    }
}

/// Restoring right after closing a tab puts a tab with the same URL back at
/// the same position, makes it active, leaves every other tab as it was, and
/// forgets the closed tab again.
pub proof fn lemma_restore_after_close(v: TabManagerView, pos: int)
    requires
        v.wf(),
        v.tabs.len() <= usize::MAX,
        0 <= pos < v.tabs.len(),
        v.closed.len() < v.max_closed,
    ensures
        v.closed_at(pos).restored().tabs.len() == v.tabs.len(),
        v.closed_at(pos).restored().active_index == pos,
        v.closed_at(pos).restored().tabs[pos].url == v.tabs[pos].url,
        forall|i: int| 0 <= i < v.tabs.len() && i != pos ==> v.closed_at(pos).restored().tabs[i] == v.tabs[i],
        v.closed_at(pos).restored().closed == v.closed,
{
    let c = v.closed_at(pos);
    let r = c.restored();
    let tab = v.tabs[pos];
    let snap = ClosedTabView { url: tab.url, title: tab.title, index: pos as usize };
    let pushed = v.closed.push(snap);
    assert(pushed.len() <= v.max_closed);
    assert(c.closed == pushed);
    assert(c.closed.last() == snap);
    assert(c.tabs.len() == v.tabs.len() - 1);
    assert(snap.index <= c.tabs.len());
    assert(c.closed.drop_last() =~= v.closed);
    assert(r.tabs == c.tabs.insert(pos, fresh_tab(v.next_id, v.tabs[pos].url)));
    assert forall|i: int| 0 <= i < v.tabs.len() && i != pos implies r.tabs[i] == v.tabs[i] by {
        if i < pos {
            assert(c.tabs[i] == v.tabs[i]);
        } else {
            assert(c.tabs[i - 1] == v.tabs[i]);
        }
    }
}

/// Stepping to the next tab and back to the previous one returns to the tab
/// that was active, and the other way round.
pub proof fn lemma_next_prev_inverse(v: TabManagerView)
    requires
        v.wf(),
        v.tabs.len() <= usize::MAX,
    ensures
        v.stepped_next().stepped_prev() == v,
        v.stepped_prev().stepped_next() == v,
{
    if v.tabs.len() > 0 {
        let n = v.tabs.len() as int;
        let a = v.active_index as int;
        assert((a + 1) % n == if a + 1 == n { 0 } else { a + 1 }) by (nonlinear_arith)
            requires 0 <= a < n;
        assert(((n - 1) + 1) % n == 0) by (nonlinear_arith)
            requires n > 0;
        if a > 0 {
            assert((a - 1 + 1) % n == a) by (nonlinear_arith)
                requires 0 < a < n;
        }
    }
}

/// Every tab carries an id that the manager handed out (from 1 up to, not
/// including, its counter), and no two tabs share an id.
pub open spec fn ids_fresh(v: TabManagerView) -> bool {
    &&& 1 <= v.next_id
    &&& forall|i: int| 0 <= i < v.tabs.len() ==> 1 <= #[trigger] v.tabs[i].id.value() < v.next_id
    &&& forall|i: int, j: int|
        0 <= i < v.tabs.len() && 0 <= j < v.tabs.len() && i != j ==> #[trigger] v.tabs[i].id
            != #[trigger] v.tabs[j].id
}

/// A new tab gets an id that no open tab has, while the id counter has not
/// reached its limit.
pub proof fn lemma_inserted_ids_fresh(v: TabManagerView, at: int, url: UrlView)
    requires
        ids_fresh(v),
        v.next_id < u64::MAX,
        0 <= at <= v.tabs.len(),
    ensures
        ids_fresh(v.inserted(at, url)),
{
    TabId::lemma_value_onto(v.next_id);
    let n = v.inserted(at, url);
    let x = fresh_tab(v.next_id, url);
    assert(x.id.value() == v.next_id);
    assert(n.next_id == v.next_id + 1);
    assert forall|i: int| 0 <= i < n.tabs.len() implies 1 <= #[trigger] n.tabs[i].id.value() < n.next_id by {
        if i < at {
            assert(n.tabs[i] == v.tabs[i]);
        } else if i > at {
            assert(n.tabs[i] == v.tabs[i - 1]);
        }
    }
    assert forall|i: int, j: int|
        0 <= i < n.tabs.len() && 0 <= j < n.tabs.len() && i != j implies #[trigger] n.tabs[i].id
            != #[trigger] n.tabs[j].id by {
        let vi = if i < at { i } else { i - 1 };
        let vj = if j < at { j } else { j - 1 };
        if i != at && j != at {
            assert(n.tabs[i] == v.tabs[vi]);
            assert(n.tabs[j] == v.tabs[vj]);
        } else if i == at {
            assert(n.tabs[j] == v.tabs[vj]);
            TabId::lemma_value_injective(n.tabs[i].id, n.tabs[j].id);
        } else {
            assert(n.tabs[i] == v.tabs[vi]);
            TabId::lemma_value_injective(n.tabs[i].id, n.tabs[j].id);
        }
    }
}

/// Closing a tab keeps the ids of the others distinct.
pub proof fn lemma_closed_ids_fresh(v: TabManagerView, pos: int)
    requires
        ids_fresh(v),
        0 <= pos < v.tabs.len(),
    ensures
        ids_fresh(v.closed_at(pos)),
{
    let c = v.closed_at(pos);
    assert forall|i: int| 0 <= i < c.tabs.len() implies 1 <= #[trigger] c.tabs[i].id.value() < c.next_id by {
        if i < pos {
            assert(c.tabs[i] == v.tabs[i]);
        } else {
            assert(c.tabs[i] == v.tabs[i + 1]);
        }
    }
    assert forall|i: int, j: int|
        0 <= i < c.tabs.len() && 0 <= j < c.tabs.len() && i != j implies #[trigger] c.tabs[i].id
            != #[trigger] c.tabs[j].id by {
        let vi = if i < pos { i } else { i + 1 };
        let vj = if j < pos { j } else { j + 1 };
        assert(c.tabs[i] == v.tabs[vi]);
        assert(c.tabs[j] == v.tabs[vj]);
    }
}

/// Moving a tab keeps the ids distinct.
pub proof fn lemma_reordered_ids_fresh(v: TabManagerView, from: int, to: int)
    requires
        ids_fresh(v),
    ensures
        ids_fresh(v.reordered(from, to)),
{
    if !(from < 0 || to < 0 || from >= v.tabs.len() || to >= v.tabs.len() || from == to) {
        let r = v.reordered(from, to);
        let removed = v.tabs.remove(from);
        assert(r.tabs == removed.insert(to, v.tabs[from]));
        // Position `k` of the result holds the tab at `back(k)` before the move.
        let back = |k: int|
            if k == to {
                from
            } else {
                let m = if k < to { k } else { k - 1 };
                if m < from { m } else { m + 1 }
            };
        assert forall|k: int| 0 <= k < r.tabs.len() implies r.tabs[k] == v.tabs[back(k)] && 0 <= back(k)
            < v.tabs.len() by {
            if k != to {
                let m = if k < to { k } else { k - 1 };
                assert(r.tabs[k] == removed[m]);
            }
        }
        assert forall|i: int| 0 <= i < r.tabs.len() implies 1 <= #[trigger] r.tabs[i].id.value() < r.next_id by {
            assert(r.tabs[i] == v.tabs[back(i)]);
        }
        assert forall|i: int, j: int|
            0 <= i < r.tabs.len() && 0 <= j < r.tabs.len() && i != j implies #[trigger] r.tabs[i].id
                != #[trigger] r.tabs[j].id by {
            assert(r.tabs[i] == v.tabs[back(i)]);
            assert(r.tabs[j] == v.tabs[back(j)]);
            assert(back(i) != back(j));
        }
    }
}

/// Pinning or unpinning a tab keeps the ids distinct.
pub proof fn lemma_pin_toggled_ids_fresh(v: TabManagerView, id: TabId)
    requires
        ids_fresh(v),
    ensures
        ids_fresh(v.pin_toggled(id)),
{
    let pos = position_of(v.tabs, id);
    if pos >= 0 {
        if has_id(v.tabs, id) {
            lemma_position_of(v.tabs, id);
        }
        if 0 <= pos < v.tabs.len() {
            let t = v.tabs[pos];
            let tabs = v.tabs.update(pos, TabView { pinned: !t.pinned, ..t });
            let flipped = TabManagerView { tabs, ..v };
            assert forall|i: int| 0 <= i < tabs.len() implies #[trigger] tabs[i].id == v.tabs[i].id by {}
            assert(ids_fresh(flipped));
            lemma_reordered_ids_fresh(flipped, pos, count_pinned(tabs.take(pos)) as int);
            lemma_reordered_ids_fresh(flipped, pos, count_pinned(tabs) as int);
        }
    }
}

/// Restoring a closed tab gives it an id that no open tab has, while the id
/// counter has not reached its limit.
pub proof fn lemma_restored_ids_fresh(v: TabManagerView)
    requires
        ids_fresh(v),
        v.next_id < u64::MAX,
    ensures
        ids_fresh(v.restored()),
{
    if v.closed.len() > 0 {
        let c = v.closed.last();
        let at = if c.index <= v.tabs.len() { c.index as int } else { v.tabs.len() as int };
        lemma_inserted_ids_fresh(v, at, c.url);
    }
}

/// A new tab's id is the counter's value, which no open tab has.
pub proof fn lemma_counter_not_open(v: TabManagerView, id: TabId)
    requires
        ids_fresh(v),
        id.value() == v.next_id,
    ensures
        !has_id(v.tabs, id),
{
    if has_id(v.tabs, id) {
        let k = choose|k: int| 0 <= k < v.tabs.len() && v.tabs[k].id == id;
        assert(v.tabs[k].id.value() < v.next_id);
    }
}

/// Closing the tab with id `id` leaves no tab with that id open, and one
/// tab fewer.
pub proof fn lemma_closed_drops_id(v: TabManagerView, id: TabId)
    requires
        ids_fresh(v),
        has_id(v.tabs, id),
    ensures
        !has_id(v.closed_at(position_of(v.tabs, id)).tabs, id),
        v.closed_at(position_of(v.tabs, id)).tabs.len() == v.tabs.len() - 1,
        ids_fresh(v.closed_at(position_of(v.tabs, id))),
{
    lemma_position_of(v.tabs, id);
    let pos = position_of(v.tabs, id);
    lemma_closed_ids_fresh(v, pos);
    let c = v.closed_at(pos);
    if has_id(c.tabs, id) {
        let k = choose|k: int| 0 <= k < c.tabs.len() && c.tabs[k].id == id;
        let vk = if k < pos { k } else { k + 1 };
        assert(c.tabs[k] == v.tabs[vk]);
        assert(v.tabs[vk].id != v.tabs[pos].id);
    }
}

/// The pinned tabs come before all the others.
pub open spec fn pinned_first(tabs: Seq<TabView>) -> bool {
    forall|i: int, j: int|
        #![trigger tabs[i], tabs[j]]
        0 <= i < j < tabs.len() && tabs[j].pinned ==> tabs[i].pinned
}

/// Where exactly the first `m` tabs are pinned, `m` tabs are pinned.
proof fn lemma_count_pinned_of_prefix(w: Seq<TabView>, m: int)
    requires
        0 <= m <= w.len(),
        forall|i: int| 0 <= i < w.len() ==> (#[trigger] w[i]).pinned == (i < m),
    ensures
        count_pinned(w) == m,
    decreases w.len(),
{
    if w.len() > 0 {
        let d = w.drop_last();
        let dm = if m == w.len() { m - 1 } else { m };
        assert forall|i: int| 0 <= i < d.len() implies (#[trigger] d[i]).pinned == (i < dm) by {
            assert(d[i] == w[i]);
        }
        lemma_count_pinned_of_prefix(d, dm);
        assert(w.last() == w[w.len() - 1]);
    }
}

/// With the pinned tabs first, a tab is pinned exactly when it comes before
/// position `count_pinned`.
pub proof fn lemma_pinned_first_shape(w: Seq<TabView>)
    requires
        pinned_first(w),
    ensures
        count_pinned(w) <= w.len(),
        forall|i: int| 0 <= i < w.len() ==> (#[trigger] w[i]).pinned == (i < count_pinned(w)),
    decreases w.len(),
{
    if w.len() > 0 {
        let d = w.drop_last();
        assert(pinned_first(d)) by {
            assert forall|i: int, j: int|
                #![trigger d[i], d[j]]
                0 <= i < j < d.len() && d[j].pinned implies d[i].pinned by {
                assert(d[i] == w[i] && d[j] == w[j]);
            }
        }
        lemma_pinned_first_shape(d);
        let n = w.len() - 1;
        assert(w.last() == w[n]);
        if w[n].pinned {
            assert forall|i: int| 0 <= i < d.len() implies (#[trigger] d[i]).pinned by {
                assert(d[i] == w[i]);
                assert(w[i].pinned);
            }
            if count_pinned(d) < d.len() {
                let k = count_pinned(d) as int;
                assert(d[k].pinned);
            }
        }
        assert forall|i: int| 0 <= i < w.len() implies (#[trigger] w[i]).pinned == (i < count_pinned(w)) by {
            if i < n {
                assert(d[i] == w[i]);
            }
        }
    }
}

/// Changing one tab changes the pinned count by the change of its pin.
proof fn lemma_count_pinned_update(w: Seq<TabView>, p: int, x: TabView)
    requires
        0 <= p < w.len(),
    ensures
        count_pinned(w.update(p, x)) as int == count_pinned(w) as int - (if w[p].pinned { 1int } else { 0int })
            + (if x.pinned { 1int } else { 0int }),
    decreases w.len(),
{
    let u = w.update(p, x);
    let d = w.drop_last();
    if p == w.len() - 1 {
        assert(u.drop_last() =~= d);
    } else {
        assert(u.drop_last() =~= d.update(p, x));
        lemma_count_pinned_update(d, p, x);
        assert(d[p] == w[p]);
    }
}

/// Pinning or unpinning a tab, while the pinned tabs come first, keeps them
/// first, adds or removes one pinned tab, and keeps the number of tabs.
pub proof fn lemma_pin_toggled_keeps_pinned_first(v: TabManagerView, id: TabId)
    requires
        pinned_first(v.tabs),
    ensures
        pinned_first(v.pin_toggled(id).tabs),
        forall|i: int| 0 <= i < v.pin_toggled(id).tabs.len() ==> (#[trigger] v.pin_toggled(id).tabs[i]).pinned
            == (i < count_pinned(v.pin_toggled(id).tabs)),
        v.pin_toggled(id).tabs.len() == v.tabs.len(),
        count_pinned(v.pin_toggled(id).tabs) as int == if !has_id(v.tabs, id) {
            count_pinned(v.tabs) as int
        } else if v.tabs[position_of(v.tabs, id)].pinned {
            count_pinned(v.tabs) - 1
        } else {
            count_pinned(v.tabs) + 1int
        },
{
    if has_id(v.tabs, id) {
        lemma_position_of(v.tabs, id);
        lemma_pinned_first_shape(v.tabs);
        let pos = position_of(v.tabs, id);
        let c = count_pinned(v.tabs) as int;
        let t = v.tabs[pos];
        let ft = TabView { pinned: !t.pinned, ..t };
        let tabs = v.tabs.update(pos, ft);
        let r = v.pin_toggled(id);
        // The new count is `m`, and the pinned tabs of the result are the
        // first `m`.
        let m = if t.pinned { c - 1 } else { c + 1 };
        if !t.pinned {
            assert(pos >= c);
            assert(tabs.take(pos) =~= v.tabs.take(pos));
            lemma_count_pinned_of_prefix(v.tabs.take(pos), c);
            assert(r.tabs == if pos == c { tabs } else { tabs.remove(pos).insert(c, ft) });
            assert forall|k: int| 0 <= k < r.tabs.len() implies (#[trigger] r.tabs[k]).pinned == (k < m) by {
                if pos != c {
                    if k < c {
                        assert(r.tabs[k] == v.tabs[k]);
                    } else if k == c {
                    } else if k <= pos {
                        assert(r.tabs[k] == v.tabs[k - 1]);
                    } else {
                        assert(r.tabs[k] == v.tabs[k]);
                    }
                }
            }
        } else {
            assert(pos < c);
            lemma_count_pinned_update(v.tabs, pos, ft);
            assert(r.tabs == if pos == c - 1 { tabs } else { tabs.remove(pos).insert(c - 1, ft) });
            assert forall|k: int| 0 <= k < r.tabs.len() implies (#[trigger] r.tabs[k]).pinned == (k < m) by {
                if pos != c - 1 {
                    if k < pos {
                        assert(r.tabs[k] == v.tabs[k]);
                    } else if k < c - 1 {
                        assert(r.tabs[k] == v.tabs[k + 1]);
                    } else if k == c - 1 {
                    } else {
                        assert(r.tabs[k] == v.tabs[k]);
                    }
                }
            }
        }
        lemma_count_pinned_of_prefix(r.tabs, m);
    } else {
        lemma_pinned_first_shape(v.tabs);
    }
}

} // verus!

verus! {

/// Closing a tab keeps the user where they were: closing a background tab
/// leaves the same tab active, and closing the active tab makes its right
/// neighbour active (its left neighbour when it was the last one). The tabs
/// left are the others, in order.
pub proof fn lemma_close_keeps_focus(v: TabManagerView, pos: int)
    requires
        v.wf(),
        0 <= pos < v.tabs.len(),
    ensures
        ({
            let r = v.closed_at(pos);
            &&& r.wf()
            &&& r.tabs.len() == v.tabs.len() - 1
            &&& forall|i: int| 0 <= i < r.tabs.len() ==> #[trigger] r.tabs[i] == if i < pos {
                v.tabs[i]
            } else {
                v.tabs[i + 1]
            }
            &&& pos != v.active_index ==> r.tabs[r.active_index as int] == v.tabs[v.active_index as int]
            &&& pos == v.active_index && pos + 1 < v.tabs.len() ==> r.tabs[r.active_index as int]
                == v.tabs[pos + 1]
            &&& pos == v.active_index && pos + 1 == v.tabs.len() && pos > 0 ==> r.tabs[r.active_index as int]
                == v.tabs[pos - 1]
            &&& r.closed.last() == (ClosedTabView {
                url: v.tabs[pos].url,
                title: v.tabs[pos].title,
                index: pos as usize,
            })
        }),
{
    let r = v.closed_at(pos);
    assert forall|i: int| 0 <= i < r.tabs.len() implies #[trigger] r.tabs[i] == if i < pos {
        v.tabs[i]
    } else {
        v.tabs[i + 1]
    } by {}
}

} // verus!

verus! {

/// A new tab is added at the given place and becomes active: it shows the
/// URL, is titled by the URL's text, is not pinned, loading or able to go
/// anywhere, and takes the counter's id; the tabs around it keep their
/// order and the closed tabs are untouched.
pub proof fn lemma_inserted_opens_tab(v: TabManagerView, at: int, url: UrlView)
    requires
        0 <= at <= v.tabs.len(),
        v.tabs.len() < usize::MAX,
    ensures
        ({
            let r = v.inserted(at, url);
            &&& r.tabs.len() == v.tabs.len() + 1
            &&& r.active_index == at
            &&& r.tabs[at].url == url
            &&& r.tabs[at].title == url.text
            &&& r.tabs[at].id.value() == v.next_id
            &&& !r.tabs[at].pinned && !r.tabs[at].loading
            &&& !r.tabs[at].can_go_back && !r.tabs[at].can_go_forward
            &&& forall|i: int| 0 <= i < at ==> #[trigger] r.tabs[i] == v.tabs[i]
            &&& forall|i: int| at < i < r.tabs.len() ==> #[trigger] r.tabs[i] == v.tabs[i - 1]
            &&& r.closed == v.closed
        }),
{
    TabId::lemma_value_onto(v.next_id);
}

/// Adding a tab puts it at the end; adding one after the active tab puts it
/// right after the active tab (first, when there are no tabs).
pub proof fn lemma_add_positions(v: TabManagerView)
    requires
        v.wf(),
    ensures
        v.tabs.len() > 0 ==> v.after_active_slot() == v.active_index + 1,
        v.tabs.len() == 0 ==> v.after_active_slot() == 0,
        0 <= v.after_active_slot() <= v.tabs.len(),
{
}

/// Moving to the next tab goes one to the right, from the last tab to the
/// first; moving to the previous one goes one to the left, from the first
/// tab to the last. The tabs themselves stay as they are.
pub proof fn lemma_step_moves_one(v: TabManagerView)
    requires
        v.wf(),
        v.tabs.len() > 0,
        v.tabs.len() <= usize::MAX,
    ensures
        v.stepped_next().tabs == v.tabs,
        v.stepped_prev().tabs == v.tabs,
        v.stepped_next().active_index == if v.active_index + 1 < v.tabs.len() {
            v.active_index + 1
        } else {
            0
        },
        v.stepped_prev().active_index == if v.active_index > 0 {
            v.active_index - 1
        } else {
            v.tabs.len() - 1
        },
{
    let n = v.tabs.len() as int;
    let a = v.active_index as int;
    if a + 1 < n {
        assert((a + 1) % n == a + 1) by (nonlinear_arith)
            requires 0 <= a + 1 < n;
    } else {
        assert((a + 1) % n == 0) by (nonlinear_arith)
            requires a + 1 == n, n > 0;
    }
}

/// Moving the tab at `from` to `to` puts it at `to`, keeps the other tabs
/// in their order, and keeps the number of tabs.
pub proof fn lemma_reorder_places_tab(v: TabManagerView, from: int, to: int)
    requires
        0 <= from < v.tabs.len(),
        0 <= to < v.tabs.len(),
    ensures
        v.reordered(from, to).tabs.len() == v.tabs.len(),
        v.reordered(from, to).tabs[to] == v.tabs[from],
        v.reordered(from, to).tabs.remove(to) == v.tabs.remove(from),
{
    let r = v.reordered(from, to);
    if from != to {
        assert(r.tabs.remove(to) =~= v.tabs.remove(from));
    }
}

/// Toggling the pin of an open tab flips its pin and nothing else about
/// it, and keeps the number of tabs.
pub proof fn lemma_pin_toggled_flips(v: TabManagerView, id: TabId)
    requires
        has_id(v.tabs, id),
    ensures
        ({
            let t = v.tabs[position_of(v.tabs, id)];
            let r = v.pin_toggled(id);
            &&& r.tabs.len() == v.tabs.len()
            &&& exists|j: int| 0 <= j < r.tabs.len() && #[trigger] r.tabs[j] == (TabView {
                pinned: !t.pinned,
                ..t
            })
        }),
{
    lemma_position_of(v.tabs, id);
    let pos = position_of(v.tabs, id);
    let t = v.tabs[pos];
    let ft = TabView { pinned: !t.pinned, ..t };
    let tabs = v.tabs.update(pos, ft);
    let flipped = TabManagerView { tabs, ..v };
    let to = if !t.pinned { count_pinned(tabs.take(pos)) as int } else { count_pinned(tabs) as int };
    let r = v.pin_toggled(id);
    assert(r == flipped.reordered(pos, to));
    if 0 <= to < tabs.len() {
        lemma_reorder_places_tab(flipped, pos, to);
        assert(r.tabs[to] == ft);
    } else {
        assert(r.tabs[pos] == ft);
    }
}

} // verus!
