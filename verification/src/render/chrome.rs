//! The tab bar as the chrome renderer draws it.

use vstd::prelude::*;

use crate::browser::tab::TabView;
use crate::browser::tabs::{tab_views, TabManager};
use crate::text::take_chars;

verus! {

/// How many characters of its title a pinned tab shows.
pub const PINNED_TITLE_CHARS: usize = 3;

/// A tab entry for the tab bar renderer.
#[derive(Debug, Clone)]
pub struct TabEntry {
    pub title: String,
    pub pinned: bool,
    pub loading: bool,
    pub active: bool,
}

/// The model of a tab entry.
pub struct TabEntryView {
    pub title: Seq<char>,
    pub pinned: bool,
    pub loading: bool,
    pub active: bool,
}

impl View for TabEntry {
    type V = TabEntryView;

    open spec fn view(&self) -> TabEntryView {
        TabEntryView { title: self.title@, pinned: self.pinned, loading: self.loading, active: self.active }
    }
}

/// The views of a sequence of tab entries.
pub open spec fn entry_views(s: Seq<TabEntry>) -> Seq<TabEntryView> {
    s.map_values(|e: TabEntry| e@)
}

/// The title a tab shows in the tab bar: a pinned tab shows the first three
/// characters of its title, any other tab the whole title.
pub open spec fn shown_title(t: TabView) -> Seq<char> {
    if t.pinned && PINNED_TITLE_CHARS < t.title.len() {
        t.title.take(PINNED_TITLE_CHARS as int)
    } else {
        t.title
    }
}

/// The tab-bar entry of the tab `t`.
pub open spec fn entry_for(t: TabView, active: bool) -> TabEntryView {
    TabEntryView { title: shown_title(t), pinned: t.pinned, loading: t.loading, active }
}

/// The tab-bar entries of the tabs `tabs`, where the tab at `active_index`
/// is the active one.
pub open spec fn entries_for(tabs: Seq<TabView>, active_index: int) -> Seq<TabEntryView> {
    Seq::new(tabs.len(), |i: int| entry_for(tabs[i], i == active_index))
}

/// The tab bar: one entry per tab, in order, the active one marked.
pub fn tab_entries(tab_manager: &TabManager) -> (res: Vec<TabEntry>)
    ensures
        entry_views(res@) == entries_for(tab_manager@.tabs, tab_manager@.active_index as int),
{
    let active_idx = tab_manager.active_index();
    let tabs = tab_manager.tabs();
    let ghost want = entries_for(tab_manager@.tabs, active_idx as int);
    let mut out: Vec<TabEntry> = Vec::new();
    let mut i: usize = 0;
    while i < tabs.len()
        invariant
            i <= tabs@.len(),
            tab_views(tabs@) == tab_manager@.tabs,
            active_idx == tab_manager@.active_index,
            want == entries_for(tab_manager@.tabs, active_idx as int),
            entry_views(out@) == want.take(i as int),
        decreases tabs@.len() - i,
    {
        let tab = &tabs[i];
        let title = if tab.pinned {
            take_chars(tab.title.as_str(), PINNED_TITLE_CHARS)
        } else {
            tab.title.clone()
        };
        proof {
            assert(tab_manager@.tabs[i as int] == tab@);
            assert(tab@.title == tab.title@);
            if tab.pinned {
                if tab.title@.len() <= PINNED_TITLE_CHARS {
                    assert(tab.title@.take(tab.title@.len() as int) =~= tab.title@);
                }
            }
            assert(title@ == shown_title(tab@));
        }
        let ghost before = out@;
        out.push(TabEntry { title, pinned: tab.pinned, loading: tab.loading, active: i == active_idx });
        proof {
            assert(tab_manager@.tabs[i as int] == tab@);
            assert(entry_views(out@) =~= entry_views(before).push(want[i as int]));
            assert(want.take(i + 1) =~= want.take(i as int).push(want[i as int]));
        }
        i = i + 1;
    }
    proof {
        assert(want.take(i as int) =~= want);
    }
    out
}


/// The tab bar has one entry per tab, in order; exactly the active tab's
/// entry is marked active; every entry shows its tab's pin and loading
/// state; an unpinned tab shows its whole title and a pinned one the first
/// three characters of it.
pub proof fn lemma_tab_bar_entries(tabs: Seq<TabView>, active_index: int)
    ensures
        entries_for(tabs, active_index).len() == tabs.len(),
        forall|i: int| 0 <= i < tabs.len() ==> {
            let e = #[trigger] entries_for(tabs, active_index)[i];
            &&& e.active == (i == active_index)
            &&& e.pinned == tabs[i].pinned
            &&& e.loading == tabs[i].loading
            &&& !tabs[i].pinned ==> e.title == tabs[i].title
            &&& tabs[i].pinned ==> e.title == tabs[i].title.take(
                if tabs[i].title.len() < 3 { tabs[i].title.len() as int } else { 3 },
            )
        },
{
    assert forall|i: int| 0 <= i < tabs.len() implies {
        let e = #[trigger] entries_for(tabs, active_index)[i];
        tabs[i].pinned ==> e.title == tabs[i].title.take(
            if tabs[i].title.len() < 3 { tabs[i].title.len() as int } else { 3 },
        )
    } by {
        if tabs[i].pinned && tabs[i].title.len() <= 3 {
            assert(tabs[i].title.take(tabs[i].title.len() as int) =~= tabs[i].title);
        }
    }
}

} // verus!
