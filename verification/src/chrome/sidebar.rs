//! The sidebar: which panel it shows, whether it is visible, and its search
//! filter over bookmarks, history and downloads.

use vstd::prelude::*;

use crate::browser::bookmark::{
    bookmark_ref_views, folder_pred, search_pred, Bookmark, BookmarkManager,
};
use crate::browser::download::{download_views, Download, DownloadManager};
use crate::browser::history::{
    entry_ref_views, entry_views, first_n, query_pred, HistoryEntry, HistoryManager,
};

verus! {

/// How many items one scroll step moves.
pub const SCROLL_PAGE: usize = 20;

/// How many recent history entries the unfiltered history panel shows.
pub const RECENT_HISTORY: usize = 100;

/// Which panel the sidebar is showing.
#[derive(Debug, Clone, Copy, PartialEq, Eq, Structural)]
pub enum SidebarPanel {
    Bookmarks,
    History,
    Downloads,
}

/// The sidebar state: visibility, active panel, and search filter. It owns
/// no data; it is a view over the bookmark, history and download managers.
pub struct Sidebar {
    /// Whether the sidebar is visible.
    pub visible: bool,
    /// Which panel is active.
    pub panel: SidebarPanel,
    /// Search/filter text within the active panel.
    pub search_text: String,
    /// Whether the search field is focused.
    pub search_focused: bool,
    /// Width in logical pixels.
    pub width: u32,
    /// Scroll offset (in items) for the active panel.
    pub scroll_offset: usize,
}

/// The model of the sidebar.
pub struct SidebarView {
    pub visible: bool,
    pub panel: SidebarPanel,
    pub search_text: Seq<char>,
    pub search_focused: bool,
    pub width: u32,
    pub scroll_offset: usize,
}

impl View for Sidebar {
    type V = SidebarView;

    open spec fn view(&self) -> SidebarView {
        SidebarView {
            visible: self.visible,
            panel: self.panel,
            search_text: self.search_text@,
            search_focused: self.search_focused,
            width: self.width,
            scroll_offset: self.scroll_offset,
        }
    }
}

impl SidebarView {
    /// The sidebar after showing `panel`: visible, filter and scroll reset.
    pub open spec fn shown(self, panel: SidebarPanel) -> SidebarView {
        SidebarView { visible: true, panel, search_text: Seq::empty(), scroll_offset: 0, ..self }
    }

    /// The sidebar after switching to `panel`: filter and scroll reset.
    pub open spec fn switched(self, panel: SidebarPanel) -> SidebarView {
        SidebarView { panel, search_text: Seq::empty(), scroll_offset: 0, ..self }
    }

    /// The sidebar with its visibility flipped.
    pub open spec fn toggled(self) -> SidebarView {
        SidebarView { visible: !self.visible, ..self }
    }

    /// The sidebar scrolled down one page (saturating).
    pub open spec fn scrolled_down(self) -> SidebarView {
        SidebarView {
            scroll_offset: if self.scroll_offset + SCROLL_PAGE > usize::MAX {
                usize::MAX
            } else {
                (self.scroll_offset + SCROLL_PAGE) as usize
            },
            ..self
        }
    }

    /// The sidebar scrolled up one page (stopping at the top).
    pub open spec fn scrolled_up(self) -> SidebarView {
        SidebarView {
            scroll_offset: if self.scroll_offset < SCROLL_PAGE {
                0
            } else {
                (self.scroll_offset - SCROLL_PAGE) as usize
            },
            ..self
        }
    }
}

impl Sidebar {
    /// A hidden sidebar on the bookmarks panel, 300 pixels wide.
    pub fn new() -> (s: Sidebar)
        ensures
            s@ == (SidebarView {
                visible: false,
                panel: SidebarPanel::Bookmarks,
                search_text: Seq::empty(),
                search_focused: false,
                width: 300,
                scroll_offset: 0,
            }),
    {
        Sidebar {
            visible: false,
            panel: SidebarPanel::Bookmarks,
            search_text: String::new(),
            search_focused: false,
            width: 300,
            scroll_offset: 0,
        }
    }

    /// Toggle sidebar visibility.
    pub fn toggle(&mut self)
        ensures
            final(self)@ == old(self)@.toggled(),
    {
        self.visible = !self.visible;
    }

    /// Show the sidebar with a specific panel.
    pub fn show(&mut self, panel: SidebarPanel)
        ensures
            final(self)@ == old(self)@.shown(panel),
    {
        self.visible = true;
        self.panel = panel;
        self.search_text = String::new();
        self.scroll_offset = 0;
    }

    /// Hide the sidebar.
    pub fn hide_sidebar(&mut self)
        ensures
            final(self)@ == (SidebarView { visible: false, ..old(self)@ }),
    {
        self.visible = false;
    }

    /// Switch to a different panel.
    pub fn switch_panel(&mut self, panel: SidebarPanel)
        ensures
            final(self)@ == old(self)@.switched(panel),
    {
        self.panel = panel;
        self.search_text = String::new();
        self.scroll_offset = 0;
    }

    /// Set the search text for filtering.
    pub fn set_search(&mut self, text: &str)
        ensures
            final(self)@ == (SidebarView { search_text: text@, scroll_offset: 0, ..old(self)@ }),
    {
        self.search_text = text.to_owned();
        self.scroll_offset = 0;
    }

    /// Clear the search filter.
    pub fn clear_search(&mut self)
        ensures
            final(self)@ == (SidebarView {
                search_text: Seq::empty(),
                scroll_offset: 0,
                ..old(self)@
            }),
    {
        self.search_text = String::new();
        self.scroll_offset = 0;
    }

    /// Scroll down by one page of 20 items.
    pub fn scroll_down(&mut self)
        ensures
            final(self)@ == old(self)@.scrolled_down(),
    {
        self.scroll_offset = self.scroll_offset.saturating_add(SCROLL_PAGE);
    }

    /// Scroll up by one page.
    pub fn scroll_up(&mut self)
        ensures
            final(self)@ == old(self)@.scrolled_up(),
    {
        self.scroll_offset = self.scroll_offset.saturating_sub(SCROLL_PAGE);
    }

    /// The bookmarks panel's list: all bookmarks without a filter, else the
    /// search results.
    pub fn filtered_bookmarks<'a>(&self, bookmarks: &'a BookmarkManager) -> (res: Vec<&'a Bookmark>)
        ensures
            bookmark_ref_views(res@) == if self@.search_text.len() == 0 {
                bookmarks@.bookmarks.filter(folder_pred(None))
            } else {
                bookmarks@.bookmarks.filter(search_pred(self@.search_text))
            },
    {
        if self.search_text.as_str().is_empty() {
            bookmarks.list(None)
        } else {
            bookmarks.search(self.search_text.as_str())
        }
    }

    /// The history panel's list: the 100 most recent entries without a
    /// filter, else the search results.
    pub fn filtered_history<'a>(&self, history: &'a HistoryManager) -> (res: Vec<&'a HistoryEntry>)
        ensures
            entry_ref_views(res@) == if self@.search_text.len() == 0 {
                first_n(history@.entries, RECENT_HISTORY as int)
            } else {
                history@.entries.filter(query_pred(self@.search_text))
            },
    {
        if self.search_text.as_str().is_empty() {
            let recent = history.recent(RECENT_HISTORY);
            let mut out: Vec<&HistoryEntry> = Vec::new();
            let mut i: usize = 0;
            while i < recent.len()
                invariant
                    i <= recent@.len(),
                    entry_ref_views(out@) == entry_views(recent@).take(i as int),
                decreases recent@.len() - i,
            {
                let r = &recent[i];
                let ghost prev = out@;
                out.push(r);
                proof {
                    assert(entry_ref_views(out@) =~= entry_ref_views(prev).push(r@));
                    assert(entry_views(recent@).take(i + 1) =~= entry_views(recent@).take(i as int).push(
                        entry_views(recent@)[i as int],
                    ));
                }
                i = i + 1;
            }
            proof {
                assert(entry_views(recent@).take(recent@.len() as int) =~= entry_views(recent@));
            }
            out
        } else {
            history.search(self.search_text.as_str())
        }
    }

    /// The downloads panel's list: every download.
    pub fn download_list<'a>(&self, downloads: &'a DownloadManager) -> (res: &'a [Download])
        ensures
            download_views(res@) == downloads@.downloads,
    {
        downloads.all()
    }
}

impl Default for Sidebar {
    fn default() -> (s: Sidebar)
        ensures
            s@ == (SidebarView {
                visible: false,
                panel: SidebarPanel::Bookmarks,
                search_text: Seq::empty(),
                search_focused: false,
                width: 300,
                scroll_offset: 0,
            }),
    {
        Sidebar::new()
    }
}

/// Toggling twice restores the sidebar.
pub proof fn lemma_toggle_twice(s: SidebarView)
    ensures
        s.toggled().toggled() == s,
{
}

/// Scrolling down and then up returns to the same offset when the scroll
/// down did not saturate.
pub proof fn lemma_scroll_down_up(s: SidebarView)
    requires
        s.scroll_offset + SCROLL_PAGE <= usize::MAX,
    ensures
        s.scrolled_down().scrolled_up() == s,
{
}

} // verus!
