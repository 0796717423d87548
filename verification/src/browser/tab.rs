//! A single browser tab: its address, title, load state and back/forward
//! stacks.

use vstd::prelude::*;

use crate::location::{Url, UrlView};

verus! {

/// A tab identifier. A `TabManager` hands out a fresh one to every tab it
/// adds; a tab made on its own carries the unassigned id 0.
#[derive(Debug, Clone, Copy, PartialEq, Eq, Hash, Structural)]
pub struct TabId(u64);

impl TabId {
    /// The numeric value of the id.
    pub closed spec fn value(self) -> u64 {
        self.0
    }

    /// Two ids are equal exactly when their values are.
    pub proof fn lemma_value_injective(a: TabId, b: TabId)
        ensures
            (a == b) <==> (a.value() == b.value()),
    {
    }

    /// Every value is the value of some id.
    pub proof fn lemma_value_onto(v: u64)
        ensures
            exists|t: TabId| t.value() == v,
    {
        assert(TabId(v).value() == v);
    }

    /// Takes the next id from `counter` (its current value) and advances the
    /// counter by one, wrapping as an atomic `fetch_add` does.
    pub fn next(counter: &mut u64) -> (id: TabId)
        ensures
            id.value() == *old(counter),
            *final(counter) == (*old(counter)).wrapping_add(1),
    {
        let id = TabId(*counter);
        *counter = (*counter).wrapping_add(1);
        id
    }

    /// The id that a tab carries before a manager assigns it one.
    pub fn unassigned() -> (id: TabId)
        ensures
            id.value() == 0,
    {
        TabId(0)
    }

    /// Return the raw numeric id.
    pub fn as_u64(self) -> (res: u64)
        ensures
            res == self.value(),
    {
        self.0
    }

    /// The display form of the id, `tab-<n>`.
    pub fn to_display_string(self) -> (res: String)
        ensures
            res@ == "tab-"@ + crate::text::decimal(self.value() as nat),
    {
        let mut s = String::from_str("tab-");
        crate::text::push_decimal(&mut s, self.0);
        s
    }
}

/// The model of a tab: every field of `Tab`, with URLs and strings taken by
/// their views.
pub struct TabView {
    pub id: TabId,
    pub url: UrlView,
    pub title: Seq<char>,
    pub loading: bool,
    pub can_go_back: bool,
    pub can_go_forward: bool,
    pub pinned: bool,
    pub back: Seq<UrlView>,
    pub forward: Seq<UrlView>,
}

impl TabView {
    /// The button flags agree with the stacks.
    pub open spec fn flags_match_stacks(self) -> bool {
        &&& self.can_go_back == (self.back.len() > 0)
        &&& self.can_go_forward == (self.forward.len() > 0)
    }

    /// The tab after navigating to `u`: the current URL goes onto the back
    /// stack, the title becomes the URL and the forward stack is cleared.
    pub open spec fn pushed(self, u: UrlView) -> TabView {
        TabView {
            url: u,
            title: u.text,
            back: self.back.push(self.url),
            forward: Seq::empty(),
            can_go_back: true,
            can_go_forward: false,
            ..self
        }
    }

    /// The tab after going back one step (unchanged when the back stack is
    /// empty). The title is left as it was.
    pub open spec fn went_back(self) -> TabView {
        if self.back.len() == 0 {
            self
        } else {
            TabView {
                url: self.back.last(),
                back: self.back.drop_last(),
                forward: self.forward.push(self.url),
                can_go_back: self.back.len() > 1,
                can_go_forward: true,
                ..self
            }
        }
    }

    /// The tab after going forward one step (unchanged when the forward
    /// stack is empty). The title is left as it was.
    pub open spec fn went_forward(self) -> TabView {
        if self.forward.len() == 0 {
            self
        } else {
            TabView {
                url: self.forward.last(),
                forward: self.forward.drop_last(),
                back: self.back.push(self.url),
                can_go_back: true,
                can_go_forward: self.forward.len() > 1,
                ..self
            }
        }
    }
}

/// A single browser tab's state. It holds no webview or platform resource;
/// the engine maps a `TabId` to those separately.
pub struct Tab {
    /// Identifier for this tab.
    pub id: TabId,
    /// Current URL displayed in this tab.
    pub url: Url,
    /// Page title. Defaults to the URL string until the page sets a title.
    pub title: String,
    /// Whether the page is currently loading.
    pub loading: bool,
    /// Whether the back button should be enabled.
    pub can_go_back: bool,
    /// Whether the forward button should be enabled.
    pub can_go_forward: bool,
    /// Whether the tab is pinned to the start of the tab bar.
    pub pinned: bool,
    /// Navigation history — back stack (most recent last).
    pub history_back: Vec<Url>,
    /// Navigation history — forward stack (most recent last).
    pub history_forward: Vec<Url>,
}

/// The views of a sequence of URLs.
pub open spec fn url_views(s: Seq<Url>) -> Seq<UrlView> {
    s.map_values(|u: Url| u@)
}

impl View for Tab {
    type V = TabView;

    open spec fn view(&self) -> TabView {
        TabView {
            id: self.id,
            url: self.url@,
            title: self.title@,
            loading: self.loading,
            can_go_back: self.can_go_back,
            can_go_forward: self.can_go_forward,
            pinned: self.pinned,
            back: url_views(self.history_back@),
            forward: url_views(self.history_forward@),
        }
    }
}

impl Tab {
    /// Create a new tab pointing at the given URL, titled with the URL.
    pub fn new(url: Url) -> (tab: Tab)
        ensures
            tab@ == (TabView {
                id: tab@.id,
                url: url@,
                title: url@.text,
                loading: false,
                can_go_back: false,
                can_go_forward: false,
                pinned: false,
                back: Seq::empty(),
                forward: Seq::empty(),
            }),
            tab@.id.value() == 0,
    {
        let title = url.to_string();
        let tab = Tab {
            id: TabId::unassigned(),
            url,
            title,
            loading: false,
            can_go_back: false,
            can_go_forward: false,
            pinned: false,
            history_back: Vec::new(),
            history_forward: Vec::new(),
        };
        proof {
            assert(url_views(tab.history_back@) =~= Seq::<UrlView>::empty());
            assert(url_views(tab.history_forward@) =~= Seq::<UrlView>::empty());
        }
        tab
    }

    /// Push a new URL into the navigation history and make it current; the
    /// title becomes the URL and the forward stack is cleared.
    pub fn push_navigation(&mut self, new_url: Url)
        ensures
            final(self)@ == old(self)@.pushed(new_url@),
    {
        let current = self.url.clone();
        self.history_back.push(current);
        self.title = new_url.to_string();
        self.url = new_url;
        self.history_forward.clear();
        self.can_go_back = true;
        self.can_go_forward = false;
        proof {
            assert(url_views(self.history_back@) =~= old(self)@.back.push(old(self)@.url));
            assert(url_views(self.history_forward@) =~= Seq::<UrlView>::empty());
        }
    }

    /// Move back in history. Returns the URL to navigate to, or `None` when
    /// the back stack is empty.
    pub fn go_back(&mut self) -> (res: Option<&Url>)
        ensures
            final(self)@ == old(self)@.went_back(),
            match res {
                Some(u) => old(self)@.back.len() > 0 && u@ == final(self)@.url,
                None => old(self)@.back.len() == 0,
            },
    {
        if self.history_back.len() == 0 {
            return None;
        }
        match self.history_back.pop() {
            None => None,
            Some(prev) => {
                let current = self.url.clone();
                self.history_forward.push(current);
                self.url = prev;
                self.can_go_back = self.history_back.len() > 0;
                self.can_go_forward = true;
                proof {
                    assert(url_views(self.history_back@) =~= old(self)@.back.drop_last());
                    assert(url_views(self.history_forward@) =~= old(self)@.forward.push(
                        old(self)@.url,
                    ));
                }
                Some(&self.url)
            },
        }
    }

    /// Move forward in history. Returns the URL to navigate to, or `None`
    /// when the forward stack is empty.
    pub fn go_forward(&mut self) -> (res: Option<&Url>)
        ensures
            final(self)@ == old(self)@.went_forward(),
            match res {
                Some(u) => old(self)@.forward.len() > 0 && u@ == final(self)@.url,
                None => old(self)@.forward.len() == 0,
            },
    {
        if self.history_forward.len() == 0 {
            return None;
        }
        match self.history_forward.pop() {
            None => None,
            Some(next) => {
                let current = self.url.clone();
                self.history_back.push(current);
                self.url = next;
                self.can_go_back = true;
                self.can_go_forward = self.history_forward.len() > 0;
                proof {
                    assert(url_views(self.history_forward@) =~= old(self)@.forward.drop_last());
                    assert(url_views(self.history_back@) =~= old(self)@.back.push(
                        old(self)@.url,
                    ));
                }
                Some(&self.url)
            },
        }
    }

    /// Pin an unpinned tab, or unpin a pinned one.
    pub fn toggle_pin(&mut self)
        ensures
            final(self)@ == (TabView { pinned: !old(self)@.pinned, ..old(self)@ }),
    {
        self.pinned = !self.pinned;
    }
}

/// Going back and then forward again returns a tab to the state it was in,
/// when its buttons agree with its stacks and it has somewhere to go back to.
pub proof fn lemma_back_then_forward_restores(t: TabView)
    requires
        t.flags_match_stacks(),
        t.back.len() > 0,
    ensures
        t.went_back().went_forward() == t,
{
    assert(t.went_back().went_forward().back =~= t.back);
    assert(t.went_back().went_forward().forward =~= t.forward);
}

/// Going forward and then back again returns a tab to the state it was in,
/// when its buttons agree with its stacks and it has somewhere to go forward
/// to.
pub proof fn lemma_forward_then_back_restores(t: TabView)
    requires
        t.flags_match_stacks(),
        t.forward.len() > 0,
    ensures
        t.went_forward().went_back() == t,
{
    assert(t.went_forward().went_back().back =~= t.back);
    assert(t.went_forward().went_back().forward =~= t.forward);
}

/// Going back right after navigating to a URL returns to the previous URL and
/// back stack, with only the new URL on the forward stack.
pub proof fn lemma_back_after_push(t: TabView, u: UrlView)
    ensures
        t.pushed(u).went_back().url == t.url,
        t.pushed(u).went_back().back == t.back,
        t.pushed(u).went_back().forward == seq![u],
        t.pushed(u).went_back().can_go_back == (t.back.len() > 0),
        t.pushed(u).went_back().can_go_forward,
{
    assert(t.pushed(u).back.drop_last() =~= t.back);
    assert(Seq::<UrlView>::empty().push(u) =~= seq![u]);
}

/// Navigating, going back and going forward keep the buttons in agreement
/// with the stacks.
pub proof fn lemma_flags_preserved(t: TabView, u: UrlView)
    requires
        t.flags_match_stacks(),
    ensures
        t.pushed(u).flags_match_stacks(),
        t.went_back().flags_match_stacks(),
        t.went_forward().flags_match_stacks(),
{
}

} // verus!
