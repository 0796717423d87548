//! The application state: every browser subsystem together, and the
//! decisions taken on a browser action or a message from the webview.
//!
//! The library decides; the program performs. Where the browser would tell
//! the web engine to load a page, the functions here return that URL, and
//! the program hands it to the engine, if one is running.

use vstd::prelude::*;

use crate::browser::bookmark::{
    bookmark_key, bookmark_ref_views, other_url_pred, search_pred, BookmarkManager, BookmarkManagerView,
    BookmarkView,
};
use crate::browser::download::{
    active_pred, path_from, path_from_text, DownloadManager, DownloadManagerView,
};
use crate::browser::history::{
    entry_ref_views, first_n, prefix_pred, sorted_by_visits, HistoryEntryView, HistoryManager,
    HistoryView, MAX_AUTOCOMPLETE, MAX_HISTORY_ENTRIES,
};
use crate::browser::navigation::{self, normalize_url, normalized, NavigationError};
use crate::browser::tab::TabView;
use crate::browser::tabs::{position_of, TabManager, TabManagerView, MAX_CLOSED_TABS};
use crate::chrome::sidebar::{Sidebar, SidebarPanel, SidebarView};
use crate::chrome::statusbar::{loading_text, SecurityLevel, StatusBar, StatusBarView};
use crate::chrome::toolbar::{
    suggestion_views, AddressSuggestion, AddressSuggestionView, ButtonState, SuggestionSource,
    Toolbar, ToolbarView,
};
use crate::config::NamimadoConfig;
use crate::input::keybindings::{BrowserAction, KeybindingManager, VimMode};
use crate::ipc::IpcMessage;
use crate::location::{parsed_url, Url, UrlView};
use crate::text::str_eq;

verus! {

/// The blank page, as the URL parser reads `about:blank`.
pub open spec fn blank_page() -> Option<UrlView> {
    parsed_url("about:blank"@)
}

/// The page a new tab opens: the homepage, or the blank page where the
/// homepage is no URL.
pub open spec fn new_tab_page(homepage: Seq<char>) -> Option<UrlView> {
    match normalized(homepage) {
        Some(u) => Some(u),
        None => blank_page(),
    }
}

/// The address the application starts on: the homepage when the requested
/// address is the blank page and a homepage is configured, else the
/// requested address.
pub open spec fn start_address(requested: Seq<char>, homepage: Seq<char>) -> Seq<char> {
    if requested == "about:blank"@ && homepage != "about:blank"@ {
        homepage
    } else {
        requested
    }
}

/// The view of an optional URL.
pub open spec fn url_opt_view(u: Option<Url>) -> Option<UrlView> {
    match u {
        Some(x) => Some(x@),
        None => None,
    }
}

/// The tabs after closing the active tab, unless it is pinned or there is
/// none.
pub open spec fn active_closed(t: TabManagerView) -> TabManagerView {
    if t.tabs.len() == 0 || t.tabs[t.active_index as int].pinned {
        t
    } else {
        t.closed_at(position_of(t.tabs, t.tabs[t.active_index as int].id))
    }
}

/// The tabs with a blank tab added when none is left.
pub open spec fn never_empty(t: TabManagerView) -> TabManagerView {
    if t.tabs.len() == 0 {
        match blank_page() {
            Some(b) => t.inserted(t.tabs.len() as int, b),
            None => t,
        }
    } else {
        t
    }
}

/// The bookmarks after toggling the bookmark of `url` titled `title`; a new
/// bookmark is stamped `now`.
pub open spec fn bookmark_toggled(
    b: BookmarkManagerView,
    title: Seq<char>,
    url: UrlView,
    now: i64,
) -> BookmarkManagerView {
    if b.has_url(url.text) {
        BookmarkManagerView { bookmarks: b.bookmarks.filter(other_url_pred(url.text)), ..b }
    } else {
        b.added(
            BookmarkView { title, url, folder: None, tags: Seq::empty(), created_at: now },
        )
    }
}

/// How many address-bar suggestions are offered at most.
pub const MAX_SUGGESTIONS: usize = 10;

/// The suggestion made from a history entry.
pub open spec fn entry_suggestion(e: HistoryEntryView) -> AddressSuggestionView {
    AddressSuggestionView { url: e.url.text, title: e.title, source: SuggestionSource::History }
}

/// The suggestion made from a bookmark.
pub open spec fn bookmark_suggestion(b: BookmarkView) -> AddressSuggestionView {
    AddressSuggestionView { url: b.url.text, title: b.title, source: SuggestionSource::Bookmark }
}

/// The suggestions made from history entries, in order.
pub open spec fn entry_suggestions(s: Seq<HistoryEntryView>) -> Seq<AddressSuggestionView> {
    s.map_values(|e: HistoryEntryView| entry_suggestion(e))
}

/// Some suggestion of `s` leads to `url`.
pub open spec fn suggests_url(s: Seq<AddressSuggestionView>, url: Seq<char>) -> bool {
    exists|i: int| 0 <= i < s.len() && s[i].url == url
}

/// `acc` followed by the suggestions of the bookmarks `bms`, in order, each
/// left out when a suggestion before it already leads to its URL.
pub open spec fn with_bookmarks(
    acc: Seq<AddressSuggestionView>,
    bms: Seq<BookmarkView>,
) -> Seq<AddressSuggestionView>
    decreases bms.len(),
{
    if bms.len() == 0 {
        acc
    } else {
        let prev = with_bookmarks(acc, bms.drop_last());
        if suggests_url(prev, bms.last().url.text) {
            prev
        } else {
            prev.push(bookmark_suggestion(bms.last()))
        }
    }
}

/// The model of the application.
pub struct AppView {
    pub tabs: TabManagerView,
    pub bookmarks: BookmarkManagerView,
    pub history: HistoryView,
    pub downloads: DownloadManagerView,
    pub toolbar: ToolbarView,
    pub sidebar: SidebarView,
    pub status_bar: StatusBarView,
    pub keybindings: KeybindingManager,
    pub config: NamimadoConfig,
    pub initial_url: Seq<char>,
    pub devtools: bool,
}

impl AppView {
    /// Every subsystem is well formed.
    pub open spec fn wf(self) -> bool {
        &&& self.tabs.wf()
        &&& self.bookmarks.wf()
        &&& self.history.wf()
    }

    /// There is an active tab.
    pub open spec fn has_active(self) -> bool {
        self.tabs.tabs.len() > 0
    }

    /// The active tab (meaningful when there is one).
    pub open spec fn active(self) -> TabView {
        self.tabs.tabs[self.tabs.active_index as int]
    }

    /// The URL of the active tab, if any.
    pub open spec fn active_url(self) -> Option<UrlView> {
        if self.has_active() {
            Some(self.active().url)
        } else {
            None
        }
    }

    /// The application with other tabs.
    pub open spec fn with_tabs(self, tabs: TabManagerView) -> AppView {
        AppView { tabs, ..self }
    }

    /// The application with the active tab replaced by `t`.
    pub open spec fn with_active(self, t: TabView) -> AppView {
        self.with_tabs(
            TabManagerView {
                tabs: self.tabs.tabs.update(self.tabs.active_index as int, t),
                ..self.tabs
            },
        )
    }

    /// The application with another toolbar.
    pub open spec fn with_toolbar(self, toolbar: ToolbarView) -> AppView {
        AppView { toolbar, ..self }
    }

    /// The toolbar brought in line with the active tab (its URL, buttons,
    /// loading state and whether it is bookmarked) and with the number of
    /// active downloads.
    pub open spec fn synced(self) -> AppView {
        let tb = if self.has_active() {
            let t = self.active();
            ToolbarView {
                back: ButtonState::spec_from_bool(t.can_go_back),
                forward: ButtonState::spec_from_bool(t.can_go_forward),
                loading: t.loading,
                is_bookmarked: self.bookmarks.has_url(t.url.text),
                ..self.toolbar.with_address(t.url.text)
            }
        } else {
            self.toolbar
        };
        self.with_toolbar(
            ToolbarView {
                active_downloads: self.downloads.downloads.filter(active_pred()).len() as usize,
                ..tb
            },
        )
    }

    /// After a change of tabs: the toolbar synced, and the engine sent to
    /// the active tab.
    pub open spec fn switched_to(self, tabs: TabManagerView) -> (AppView, Option<UrlView>) {
        let s = self.with_tabs(tabs).synced();
        (s, s.active_url())
    }

    /// The address bar left without focus or suggestions, and the keyboard
    /// told so.
    pub open spec fn address_bar_left(self) -> AppView {
        AppView {
            toolbar: ToolbarView {
                address_focused: false,
                suggestions: Seq::empty(),
                selected_suggestion: None,
                ..self.toolbar
            },
            keybindings: KeybindingManager { address_bar_focused: false, ..self.keybindings },
            ..self
        }
    }

    /// The application after `action`, with the URL the engine is to load,
    /// if any. A bookmark added by the action is stamped `now`.
    pub open spec fn after_action(self, action: BrowserAction, now: i64) -> (AppView, Option<UrlView>) {
        match action {
            BrowserAction::NewTab => match new_tab_page(self.config.homepage@) {
                Some(u) => {
                    let s = self.with_tabs(self.tabs.inserted(self.tabs.after_active_slot(), u)).synced();
                    (s.with_toolbar(ToolbarView { address_focused: true, ..s.toolbar }), None)
                },
                None => (self, None),
            },
            BrowserAction::CloseTab => self.switched_to(never_empty(active_closed(self.tabs))),
            BrowserAction::NextTab => self.switched_to(self.tabs.stepped_next()),
            BrowserAction::PrevTab => self.switched_to(self.tabs.stepped_prev()),
            BrowserAction::SwitchToTab(i) => if i < self.tabs.tabs.len() {
                self.switched_to(TabManagerView { active_index: i, ..self.tabs })
            } else {
                (self, None)
            },
            BrowserAction::RestoreClosedTab => if self.tabs.closed.len() > 0 {
                self.switched_to(self.tabs.restored())
            } else {
                (self, None)
            },
            BrowserAction::DuplicateTab => if self.has_active() {
                self.switched_to(self.tabs.inserted(self.tabs.after_active_slot(), self.active().url))
            } else {
                (self, None)
            },
            BrowserAction::PinTab => if self.has_active() {
                (self.with_tabs(self.tabs.pin_toggled(self.active().id)), None)
            } else {
                (self, None)
            },
            BrowserAction::FocusAddressBar => (
                AppView {
                    toolbar: ToolbarView { address_focused: true, ..self.toolbar },
                    keybindings: KeybindingManager { address_bar_focused: true, ..self.keybindings },
                    ..self
                },
                None,
            ),
            BrowserAction::GoBack => if self.has_active() {
                let t = self.active().went_back();
                (
                    self.with_active(t).synced(),
                    if self.active().back.len() > 0 { Some(t.url) } else { None },
                )
            } else {
                (self.synced(), None)
            },
            BrowserAction::GoForward => if self.has_active() {
                let t = self.active().went_forward();
                (
                    self.with_active(t).synced(),
                    if self.active().forward.len() > 0 { Some(t.url) } else { None },
                )
            } else {
                (self.synced(), None)
            },
            BrowserAction::Reload | BrowserAction::ReloadHard => if self.has_active() {
                (
                    self.with_active(TabView { loading: true, ..self.active() }).synced(),
                    Some(self.active().url),
                )
            } else {
                (self.synced(), None)
            },
            BrowserAction::Stop => if self.has_active() {
                (self.with_active(TabView { loading: false, ..self.active() }).synced(), None)
            } else {
                (self.synced(), None)
            },
            BrowserAction::BookmarkPage => if self.has_active() {
                let t = self.active();
                (
                    AppView {
                        bookmarks: bookmark_toggled(self.bookmarks, t.title, t.url, now),
                        toolbar: ToolbarView {
                            is_bookmarked: !self.bookmarks.has_url(t.url.text),
                            ..self.toolbar
                        },
                        ..self
                    },
                    None,
                )
            } else {
                (self, None)
            },
            BrowserAction::ToggleBookmarkBar => (
                self.with_toolbar(
                    ToolbarView { show_bookmark_bar: !self.toolbar.show_bookmark_bar, ..self.toolbar },
                ),
                None,
            ),
            BrowserAction::ShowBookmarks => (
                AppView { sidebar: self.sidebar.shown(SidebarPanel::Bookmarks), ..self },
                None,
            ),
            BrowserAction::ToggleSidebar => (AppView { sidebar: self.sidebar.toggled(), ..self }, None),
            BrowserAction::ShowHistory => (
                AppView { sidebar: self.sidebar.shown(SidebarPanel::History), ..self },
                None,
            ),
            BrowserAction::ShowDownloads => (
                AppView { sidebar: self.sidebar.shown(SidebarPanel::Downloads), ..self },
                None,
            ),
            BrowserAction::ToggleVimMode => (
                AppView {
                    keybindings: KeybindingManager {
                        vim_enabled: !self.keybindings.vim_enabled,
                        vim_mode: if self.keybindings.vim_enabled {
                            VimMode::Normal
                        } else {
                            self.keybindings.vim_mode
                        },
                        ..self.keybindings
                    },
                    ..self
                },
                None,
            ),
            BrowserAction::FindOnPage | BrowserAction::ZoomIn | BrowserAction::ZoomOut
            | BrowserAction::ZoomReset | BrowserAction::ToggleFullscreen
            | BrowserAction::ToggleDevTools => (self, None),
            BrowserAction::AddressBarSubmit => {
                let left = self.address_bar_left();
                match normalized(self.toolbar.submitted_text()) {
                    Some(u) => {
                        let moved = if left.has_active() {
                            left.with_active(TabView { loading: true, ..left.active().pushed(u) })
                        } else {
                            left
                        };
                        (moved.synced(), Some(u))
                    },
                    None => (left, None),
                }
            },
            BrowserAction::AddressBarDismiss => (self.address_bar_left().synced(), None),
            BrowserAction::AddressBarUp => (self.with_toolbar(self.toolbar.selected_prev()), None),
            BrowserAction::AddressBarDown => (self.with_toolbar(self.toolbar.selected_next()), None),
        }
    }

    /// The suggestions for what the address bar holds: the history entries
    /// it prefixes, most visited first, then the bookmarks it matches whose
    /// URL is not suggested yet; at most ten.
    pub open spec fn autocomplete_suggestions(self) -> Seq<AddressSuggestionView> {
        first_n(self.autocomplete_suggestions_untrimmed(), MAX_SUGGESTIONS as int)
    }

    /// The history and bookmark suggestions for what the address bar holds,
    /// before they are cut to ten.
    pub open spec fn autocomplete_suggestions_untrimmed(self) -> Seq<AddressSuggestionView> {
        let text = self.toolbar.address_text;
        let hist = first_n(
            sorted_by_visits(self.history.entries.filter(prefix_pred(text))),
            MAX_AUTOCOMPLETE as int,
        );
        with_bookmarks(entry_suggestions(hist), self.bookmarks.bookmarks.filter(search_pred(text)))
    }

    /// The application with fresh suggestions for the address bar (none for
    /// an empty bar), none of them selected.
    pub open spec fn autocompleted(self) -> AppView {
        self.with_toolbar(
            ToolbarView {
                suggestions: if self.toolbar.address_text.len() == 0 {
                    Seq::empty()
                } else {
                    self.autocomplete_suggestions()
                },
                selected_suggestion: None,
                ..self.toolbar
            },
        )
    }

    /// The application after `message` from the webview, with the URL the
    /// engine is to load, if any. A visit recorded by the message is stamped
    /// `now`.
    pub open spec fn after_message(self, message: IpcMessage, now: i64) -> (AppView, Option<UrlView>) {
        match message {
            IpcMessage::Navigate { url } => match normalized(url@) {
                Some(u) => {
                    let moved = if self.has_active() {
                        self.with_active(TabView { loading: true, ..self.active().pushed(u) })
                    } else {
                        self
                    };
                    (moved.synced(), Some(u))
                },
                None => (self, None),
            },
            IpcMessage::TitleChanged { title } => if self.has_active() {
                let t = TabView { title: title@, ..self.active() };
                let history = if self.history.can_count_visit(t.url.text) {
                    self.history.recorded(title@, t.url, now)
                } else {
                    self.history
                };
                (AppView { history, ..self.with_active(t) }, None)
            } else {
                (self, None)
            },
            IpcMessage::LoadStart => if self.has_active() {
                let t = TabView { loading: true, ..self.active() };
                let a = self.with_active(t);
                (
                    AppView {
                        status_bar: StatusBarView {
                            progress: Some(0),
                            security: SecurityLevel::of_scheme(t.url.scheme),
                            status_text: Some(loading_text(t.url.host)),
                            ..self.status_bar
                        },
                        ..a
                    }.synced(),
                    None,
                )
            } else {
                (self, None)
            },
            IpcMessage::LoadEnd => if self.has_active() {
                let t = TabView { loading: false, ..self.active() };
                let a = self.with_active(t);
                (
                    AppView {
                        status_bar: StatusBarView {
                            progress: None,
                            security: SecurityLevel::of_scheme(t.url.scheme),
                            status_text: None,
                            ..self.status_bar
                        },
                        ..a
                    }.synced(),
                    None,
                )
            } else {
                (self, None)
            },
            IpcMessage::FaviconChanged { .. } => (self, None),
        }
    }

    /// The application started on `page`, with the given configuration.
    pub open spec fn started(
        initial_url: Seq<char>,
        devtools: bool,
        config: NamimadoConfig,
        page: UrlView,
    ) -> AppView {
        let tabs = TabManagerView {
            tabs: Seq::empty(),
            active_index: 0,
            closed: Seq::empty(),
            max_closed: MAX_CLOSED_TABS,
            next_id: 1,
        };
        AppView {
            tabs: tabs.inserted(0, page),
            bookmarks: BookmarkManagerView { bookmarks: Seq::empty(), folders: Seq::empty() },
            history: HistoryView { entries: Seq::empty(), max_entries: MAX_HISTORY_ENTRIES },
            downloads: DownloadManagerView {
                downloads: Seq::empty(),
                download_dir: path_from_text(config.downloads.directory@),
                ask_location: config.downloads.ask_location,
                next_id: 1,
            },
            toolbar: ToolbarView {
                address_text: page.text,
                address_focused: false,
                suggestions: Seq::empty(),
                selected_suggestion: None,
                back: ButtonState::Disabled,
                forward: ButtonState::Disabled,
                loading: false,
                is_bookmarked: false,
                active_downloads: 0,
                show_bookmark_bar: true,
            },
            sidebar: SidebarView {
                visible: config.sidebar.visible,
                panel: SidebarPanel::Bookmarks,
                search_text: Seq::empty(),
                search_focused: false,
                width: config.sidebar.width,
                scroll_offset: 0,
            },
            status_bar: StatusBarView {
                progress: None,
                security: SecurityLevel::Internal,
                hover_url: None,
                status_text: None,
            },
            keybindings: KeybindingManager {
                vim_enabled: false,
                vim_mode: VimMode::Normal,
                address_bar_focused: false,
            },
            config,
            initial_url,
            devtools,
        }
    }
}

/// Top-level application state holding all browser subsystems: the browser
/// model (tabs, bookmarks, history, downloads), the chrome (toolbar,
/// sidebar, status bar), the keyboard input and the configuration.
pub struct App {
    pub tabs: TabManager,
    pub bookmarks: BookmarkManager,
    pub history: HistoryManager,
    pub downloads: DownloadManager,
    pub toolbar: Toolbar,
    pub sidebar: Sidebar,
    pub status_bar: StatusBar,
    pub keybindings: KeybindingManager,
    pub config: NamimadoConfig,
    initial_url: String,
    devtools: bool,
}

impl View for App {
    type V = AppView;

    closed spec fn view(&self) -> AppView {
        AppView {
            tabs: self.tabs@,
            bookmarks: self.bookmarks@,
            history: self.history@,
            downloads: self.downloads@,
            toolbar: self.toolbar@,
            sidebar: self.sidebar@,
            status_bar: self.status_bar@,
            keybindings: self.keybindings,
            config: self.config,
            initial_url: self.initial_url@,
            devtools: self.devtools,
        }
    }
}

impl App {
    /// Create the application on `initial_url` (the homepage instead, when
    /// asked for the blank page and a homepage is configured): one tab on
    /// that page, shown in the address bar. Fails where the address is no
    /// URL.
    pub fn new(initial_url: &str, devtools: bool, config: NamimadoConfig) -> (res: Result<
        App,
        NavigationError,
    >)
        ensures
            match res {
                Ok(app) => {
                    &&& normalized(start_address(initial_url@, config.homepage@)) is Some
                    &&& app@ == AppView::started(
                        start_address(initial_url@, config.homepage@),
                        devtools,
                        config,
                        normalized(start_address(initial_url@, config.homepage@))->0,
                    )
                    &&& app@.wf()
                },
                Err(_) => normalized(start_address(initial_url@, config.homepage@)) is None,
            },
    {
        let mut tabs = TabManager::new();
        let bookmarks = BookmarkManager::new();
        let history = HistoryManager::new();
        let download_dir = path_from(config.downloads.directory.as_str());
        let mut downloads = DownloadManager::new(download_dir);
        downloads.set_ask_location(config.downloads.ask_location);

        let mut toolbar = Toolbar::new();
        let mut sidebar = Sidebar::new();
        sidebar.visible = config.sidebar.visible;
        sidebar.width = config.sidebar.width;

        let status_bar = StatusBar::new();
        let keybindings = KeybindingManager::new();

        let url = if str_eq(initial_url, "about:blank") && !str_eq(config.homepage.as_str(), "about:blank") {
            config.homepage.clone()
        } else {
            initial_url.to_owned()
        };

        let parsed = match normalize_url(url.as_str()) {
            Ok(u) => u,
            Err(e) => {
                return Err(e);
            },
        };
        toolbar.set_url(&parsed);
        proof {
            assert(tabs@.tabs =~= Seq::empty());
            assert(tabs@.closed =~= Seq::empty());
        }
        tabs.add_tab(parsed);
        proof {
            assert(url@ == start_address(initial_url@, config.homepage@));
            assert(bookmarks@.bookmarks =~= Seq::empty());
            assert(bookmarks@.folders =~= Seq::empty());
            assert(history@.entries =~= Seq::empty());
            assert(downloads@.downloads =~= Seq::empty());
        }
        let app = App {
            tabs,
            bookmarks,
            history,
            downloads,
            toolbar,
            sidebar,
            status_bar,
            keybindings,
            config,
            initial_url: url,
            devtools,
        };
        Ok(app)
    }

    /// Bring the toolbar in line with the active tab and the downloads.
    pub fn sync_toolbar(&mut self)
        requires
            old(self)@.wf(),
        ensures
            final(self)@ == old(self)@.synced(),
    {
        match self.tabs.active_tab() {
            Some(tab) => {
                let can_back = tab.can_go_back;
                let can_fwd = tab.can_go_forward;
                let loading = tab.loading;
                let is_bm = self.bookmarks.is_bookmarked(&tab.url);
                self.toolbar.sync_with_tab(&tab.url, can_back, can_fwd, loading, is_bm);
            },
            None => {},
        }
        let n = self.downloads.active_count();
        self.toolbar.set_active_downloads(n);
    }

    /// Open a tab on the homepage (the blank page where the homepage is no
    /// URL) after the active one, and focus the address bar.
    fn open_new_tab(&mut self)
        requires
            old(self)@.wf(),
        ensures
            final(self)@.wf(),
            (final(self)@, None::<UrlView>) == old(self)@.after_action(BrowserAction::NewTab, 0),
    {
        let page = match normalize_url(self.config.homepage.as_str()) {
            Ok(u) => Some(u),
            Err(_) => match Url::parse("about:blank") {
                Ok(u) => Some(u),
                Err(_) => None,
            },
        };
        match page {
            Some(u) => {
                self.tabs.add_tab_after_active(u);
                self.sync_toolbar();
                self.toolbar.focus_address_bar();
            },
            None => {},
        }
    }

    /// Close the active tab, opening a blank one when none is left.
    fn close_current_tab(&mut self) -> (res: Option<Url>)
        requires
            old(self)@.wf(),
        ensures
            final(self)@.wf(),
            (final(self)@, url_opt_view(res)) == old(self)@.after_action(BrowserAction::CloseTab, 0),
    {
        self.tabs.close_active_tab();
        if self.tabs.is_empty() {
            match Url::parse("about:blank") {
                Ok(u) => {
                    self.tabs.add_tab(u);
                },
                Err(_) => {},
            }
        }
        self.sync_toolbar();
        self.engine_target()
    }

    /// Apply an action that changes which tabs exist or which is active.
    fn tab_action(&mut self, action: BrowserAction) -> (res: Option<Url>)
        requires
            old(self)@.wf(),
            action is NextTab || action is PrevTab || action is SwitchToTab
                || action is RestoreClosedTab || action is DuplicateTab || action is PinTab,
        ensures
            final(self)@.wf(),
            (final(self)@, url_opt_view(res)) == old(self)@.after_action(action, 0),
    {
        let changed = match action {
            BrowserAction::NextTab => {
                self.tabs.next_tab();
                true
            },
            BrowserAction::PrevTab => {
                self.tabs.prev_tab();
                true
            },
            BrowserAction::SwitchToTab(index) => self.tabs.switch_to_index(index),
            BrowserAction::RestoreClosedTab => self.tabs.restore_closed_tab().is_some(),
            BrowserAction::DuplicateTab => self.tabs.duplicate_active_tab().is_some(),
            _ => {
                let active = match self.tabs.active_tab() {
                    Some(tab) => Some(tab.id),
                    None => None,
                };
                match active {
                    Some(id) => self.tabs.toggle_pin(id),
                    None => {},
                }
                return None;
            },
        };
        if changed {
            self.sync_toolbar();
            self.engine_target()
        } else {
            None
        }
    }

    /// Move the active tab back or forward in its history.
    fn history_step(&mut self, forward: bool) -> (res: Option<Url>)
        requires
            old(self)@.wf(),
        ensures
            final(self)@.wf(),
            (final(self)@, url_opt_view(res)) == old(self)@.after_action(
                if forward { BrowserAction::GoForward } else { BrowserAction::GoBack },
                0,
            ),
    {
        let res = match self.tabs.active_tab_mut() {
            Some(tab) => if forward {
                navigation::go_forward(tab)
            } else {
                navigation::go_back(tab)
            },
            None => None,
        };
        self.sync_toolbar();
        res
    }

    /// Reload the active tab (`reload`) or stop its loading.
    fn load_control(&mut self, reload: bool) -> (res: Option<Url>)
        requires
            old(self)@.wf(),
        ensures
            final(self)@.wf(),
            (final(self)@, url_opt_view(res)) == old(self)@.after_action(
                if reload { BrowserAction::Reload } else { BrowserAction::Stop },
                0,
            ),
    {
        let res = match self.tabs.active_tab_mut() {
            Some(tab) => if reload {
                navigation::reload(tab);
                Some(tab.url.clone())
            } else {
                navigation::stop(tab);
                None
            },
            None => None,
        };
        self.sync_toolbar();
        res
    }

    /// Bookmark the active page, or remove its bookmark.
    fn toggle_page_bookmark(&mut self)
        requires
            old(self)@.wf(),
        ensures
            final(self)@.wf(),
            (final(self)@, None::<UrlView>) == old(self)@.after_action(
                BrowserAction::BookmarkPage,
                final(self)@.bookmarks.bookmarks.last().created_at,
            ),
    {
        match self.tabs.active_tab() {
            Some(tab) => {
                let url = tab.url.clone();
                let title = tab.title.clone();
                let now_bookmarked = self.bookmarks.toggle(title.as_str(), url);
                self.toolbar.set_bookmarked(now_bookmarked);
            },
            None => {},
        }
    }

    /// Navigate the active tab to what the address bar holds.
    fn submit_address_bar(&mut self) -> (res: Option<Url>)
        requires
            old(self)@.wf(),
        ensures
            final(self)@.wf(),
            (final(self)@, url_opt_view(res)) == old(self)@.after_action(
                BrowserAction::AddressBarSubmit,
                0,
            ),
    {
        let text = self.toolbar.submit_address();
        self.keybindings.address_bar_focused = false;
        match normalize_url(text.as_str()) {
            Ok(url) => {
                match self.tabs.active_tab_mut() {
                    Some(tab) => navigation::navigate(tab, url.clone()),
                    None => {},
                }
                self.sync_toolbar();
                Some(url)
            },
            Err(_) => None,
        }
    }

    /// Apply an action that only touches the chrome or the keyboard state.
    fn chrome_action(&mut self, action: BrowserAction)
        requires
            old(self)@.wf(),
            action is FocusAddressBar || action is ToggleBookmarkBar || action is ShowBookmarks
                || action is ToggleSidebar || action is ShowHistory || action is ShowDownloads
                || action is ToggleVimMode || action is FindOnPage || action is ZoomIn
                || action is ZoomOut || action is ZoomReset || action is ToggleFullscreen
                || action is ToggleDevTools || action is AddressBarDismiss || action is AddressBarUp
                || action is AddressBarDown,
        ensures
            final(self)@.wf(),
            (final(self)@, None::<UrlView>) == old(self)@.after_action(action, 0),
    {
        match action {
            BrowserAction::FocusAddressBar => {
                self.toolbar.focus_address_bar();
                self.keybindings.address_bar_focused = true;
            },
            BrowserAction::ToggleBookmarkBar => self.toolbar.toggle_bookmark_bar(),
            BrowserAction::ShowBookmarks => self.sidebar.show(SidebarPanel::Bookmarks),
            BrowserAction::ToggleSidebar => self.sidebar.toggle(),
            BrowserAction::ShowHistory => self.sidebar.show(SidebarPanel::History),
            BrowserAction::ShowDownloads => self.sidebar.show(SidebarPanel::Downloads),
            BrowserAction::ToggleVimMode => self.keybindings.toggle_vim(),
            BrowserAction::AddressBarDismiss => {
                self.toolbar.dismiss_address_bar();
                self.keybindings.address_bar_focused = false;
                self.sync_toolbar();
            },
            BrowserAction::AddressBarUp => self.toolbar.select_prev_suggestion(),
            BrowserAction::AddressBarDown => self.toolbar.select_next_suggestion(),
            _ => {},
        }
    }

    /// Apply a browser action (from a keyboard shortcut or other input).
    /// Returns the URL the web engine is to load, if any: the active tab's
    /// after a change of tabs, the page reached by going back or forward,
    /// the reloaded page, or the page submitted in the address bar.
    pub fn handle_action(&mut self, action: BrowserAction) -> (res: Option<Url>)
        requires
            old(self)@.wf(),
        ensures
            final(self)@.wf(),
            (final(self)@, url_opt_view(res)) == old(self)@.after_action(
                action,
                final(self)@.bookmarks.bookmarks.last().created_at,
            ),
    {
        match action {
            BrowserAction::NewTab => {
                self.open_new_tab();
                None
            },
            BrowserAction::CloseTab => self.close_current_tab(),
            BrowserAction::NextTab | BrowserAction::PrevTab | BrowserAction::SwitchToTab(_)
            | BrowserAction::RestoreClosedTab | BrowserAction::DuplicateTab
            | BrowserAction::PinTab => self.tab_action(action),
            BrowserAction::GoBack => self.history_step(false),
            BrowserAction::GoForward => self.history_step(true),
            BrowserAction::Reload | BrowserAction::ReloadHard => self.load_control(true),
            BrowserAction::Stop => self.load_control(false),
            BrowserAction::BookmarkPage => {
                self.toggle_page_bookmark();
                None
            },
            BrowserAction::AddressBarSubmit => self.submit_address_bar(),
            _ => {
                self.chrome_action(action);
                None
            },
        }
    }

    /// Navigate the active tab where the page asked to go.
    fn page_navigation(&mut self, url: String) -> (res: Option<Url>)
        requires
            old(self)@.wf(),
        ensures
            final(self)@.wf(),
            (final(self)@, url_opt_view(res)) == old(self)@.after_message(
                IpcMessage::Navigate { url },
                0,
            ),
    {
        match normalize_url(url.as_str()) {
            Ok(parsed) => {
                match self.tabs.active_tab_mut() {
                    Some(tab) => navigation::navigate(tab, parsed.clone()),
                    None => {},
                }
                self.sync_toolbar();
                Some(parsed)
            },
            Err(_) => None,
        }
    }

    /// Name the active tab `title` and record the visit.
    fn page_titled(&mut self, title: String)
        requires
            old(self)@.wf(),
        ensures
            final(self)@.wf(),
            (final(self)@, None::<UrlView>) == old(self)@.after_message(
                IpcMessage::TitleChanged { title },
                final(self)@.history.entries[0].timestamp,
            ),
    {
        match self.tabs.active_tab_mut() {
            Some(tab) => {
                tab.title = title.clone();
                let url = tab.url.clone();
                if self.history.can_record_visit(&url) {
                    self.history.record_visit(title.as_str(), url);
                }
            },
            None => {},
        }
    }

    /// The active tab started (`started`) or finished loading.
    fn page_loading(&mut self, started: bool)
        requires
            old(self)@.wf(),
        ensures
            final(self)@.wf(),
            (final(self)@, None::<UrlView>) == old(self)@.after_message(
                if started { IpcMessage::LoadStart } else { IpcMessage::LoadEnd },
                0,
            ),
    {
        match self.tabs.active_tab_mut() {
            Some(tab) => {
                tab.loading = started;
                let url = tab.url.clone();
                if started {
                    self.status_bar.on_load_start(&url);
                } else {
                    self.status_bar.on_load_end(&url);
                }
                self.sync_toolbar();
            },
            None => {},
        }
    }

    /// Apply a message from the webview. Returns the URL the web engine is to
    /// load, if any (for a navigation the page asked for). A title change
    /// names the active tab and records a visit in the history, unless the
    /// page's visit count is already at its limit.
    pub fn handle_ipc(&mut self, message: IpcMessage) -> (res: Option<Url>)
        requires
            old(self)@.wf(),
        ensures
            final(self)@.wf(),
            (final(self)@, url_opt_view(res)) == old(self)@.after_message(
                message,
                final(self)@.history.entries[0].timestamp,
            ),
    {
        match message {
            IpcMessage::Navigate { url } => self.page_navigation(url),
            IpcMessage::TitleChanged { title } => {
                self.page_titled(title);
                None
            },
            IpcMessage::LoadStart => {
                self.page_loading(true);
                None
            },
            IpcMessage::LoadEnd => {
                self.page_loading(false);
                None
            },
            IpcMessage::FaviconChanged { .. } => None,
        }
    }

    /// Offer suggestions for what the address bar holds, from the history
    /// and the bookmarks.
    pub fn update_autocomplete(&mut self)
        ensures
            final(self)@ == old(self)@.autocompleted(),
    {
        let text = self.toolbar.url_bar_text();
        if text.is_empty() {
            self.toolbar.set_suggestions(Vec::new());
            proof {
                assert(suggestion_views(Seq::<AddressSuggestion>::empty()) =~= Seq::empty());
            }
            return;
        }
        let mut suggestions: Vec<AddressSuggestion> = Vec::new();
        let entries = self.history.autocomplete(text);
        let ghost hist = entry_ref_views(entries@);
        let mut i: usize = 0;
        while i < entries.len()
            invariant
                i <= entries@.len(),
                hist == entry_ref_views(entries@),
                suggestion_views(suggestions@) == entry_suggestions(hist.take(i as int)),
            decreases entries@.len() - i,
        {
            let e = entries[i];
            let ghost before = suggestions@;
            suggestions.push(
                AddressSuggestion {
                    url: e.url.as_str().to_owned(),
                    title: e.title.clone(),
                    source: SuggestionSource::History,
                },
            );
            proof {
                assert(hist.take(i + 1) =~= hist.take(i as int).push(hist[i as int]));
                assert(suggestions@ =~= before.push(suggestions@.last()));
                assert(suggestion_views(suggestions@) =~= suggestion_views(before).push(
                    entry_suggestion(hist[i as int]),
                ));
                assert(suggestion_views(suggestions@) =~= entry_suggestions(hist.take(i + 1)));
            }
            i = i + 1;
        }
        let ghost from_history = suggestion_views(suggestions@);
        proof {
            assert(hist.take(i as int) =~= hist);
        }
        let marks = self.bookmarks.search(text);
        let ghost bms = bookmark_ref_views(marks@);
        let mut j: usize = 0;
        while j < marks.len()
            invariant
                j <= marks@.len(),
                bms == bookmark_ref_views(marks@),
                suggestion_views(suggestions@) == with_bookmarks(from_history, bms.take(j as int)),
            decreases marks@.len() - j,
        {
            let b = marks[j];
            let mut seen = false;
            let mut k: usize = 0;
            while k < suggestions.len()
                invariant
                    k <= suggestions@.len(),
                    seen == exists|m: int| 0 <= m < k && suggestions@[m].url@ == b.url@.text,
                decreases suggestions@.len() - k,
            {
                if str_eq(suggestions[k].url.as_str(), b.url.as_str()) {
                    seen = true;
                }
                k = k + 1;
            }
            proof {
                let sv = suggestion_views(suggestions@);
                assert(bms.take(j + 1).drop_last() =~= bms.take(j as int));
                assert(bms.take(j + 1).last() == bms[j as int]);
                if seen {
                    let m = choose|m: int| 0 <= m < k && suggestions@[m].url@ == b.url@.text;
                    assert(sv[m].url == b@.url.text);
                } else {
                    assert forall|m: int| 0 <= m < sv.len() implies sv[m].url != b@.url.text by {
                        assert(suggestions@[m].url@ == sv[m].url);
                    }
                }
            }
            if !seen {
                let ghost before = suggestions@;
                suggestions.push(
                    AddressSuggestion {
                        url: b.url.as_str().to_owned(),
                        title: b.title.clone(),
                        source: SuggestionSource::Bookmark,
                    },
                );
                proof {
                    assert(suggestion_views(suggestions@) =~= suggestion_views(before).push(
                        bookmark_suggestion(bms[j as int]),
                    ));
                }
            }
            j = j + 1;
        }
        proof {
            assert(bms.take(j as int) =~= bms);
        }
        let ghost merged = suggestions@;
        proof {
            assert(suggestion_views(merged) == old(self)@.autocomplete_suggestions_untrimmed());
        }
        suggestions.truncate(MAX_SUGGESTIONS);
        proof {
            assert(suggestion_views(suggestions@) =~= first_n(
                suggestion_views(merged),
                MAX_SUGGESTIONS as int,
            ));
        }
        self.toolbar.set_suggestions(suggestions);
    }

    /// The URL of the active tab, which the engine should show.
    fn engine_target(&self) -> (res: Option<Url>)
        requires
            self@.wf(),
        ensures
            url_opt_view(res) == self@.active_url(),
    {
        match self.tabs.active_tab() {
            Some(tab) => Some(tab.url.clone()),
            None => None,
        }
    }
}

} // verus!


verus! {

/// Every browser action leaves the application with a tab to show when it
/// had one: closing the last tab opens a blank tab in its place.
pub proof fn lemma_action_keeps_a_tab(a: AppView, action: BrowserAction, now: i64)
    requires
        a.wf(),
        a.has_active(),
        blank_page() is Some,
    ensures
        a.after_action(action, now).0.has_active(),
{
    match action {
        BrowserAction::CloseTab => {
            let t1 = active_closed(a.tabs);
            assert(never_empty(t1).tabs.len() > 0);
        },
        BrowserAction::PinTab => {
            assert(a.tabs.tabs[a.tabs.active_index as int].id == a.active().id);
            crate::browser::tabs::lemma_position_of(a.tabs.tabs, a.active().id);
            let pos = position_of(a.tabs.tabs, a.active().id);
            if pos >= 0 {
                let t = a.tabs.tabs[pos];
                let tabs = a.tabs.tabs.update(pos, TabView { pinned: !t.pinned, ..t });
                assert(tabs.len() == a.tabs.tabs.len());
            }
        },
        _ => {},
    }
}

/// A message from the webview never opens or closes a tab.
pub proof fn lemma_message_keeps_tabs(a: AppView, message: IpcMessage, now: i64)
    requires
        a.wf(),
    ensures
        a.after_message(message, now).0.tabs.tabs.len() == a.tabs.tabs.len(),
{
}

/// Bookmarking the active page flips whether it is bookmarked, and the
/// toolbar's star shows the new state.
pub proof fn lemma_bookmark_page_flips(a: AppView, now: i64)
    requires
        a.wf(),
        a.has_active(),
    ensures
        ({
            let b = a.after_action(BrowserAction::BookmarkPage, now).0;
            &&& b.bookmarks.has_url(a.active().url.text) == !a.bookmarks.has_url(a.active().url.text)
            &&& b.toolbar.is_bookmarked == b.bookmarks.has_url(a.active().url.text)
        }),
{
    let t = a.active();
    let text = t.url.text;
    if a.bookmarks.has_url(text) {
        let kept = a.bookmarks.bookmarks.filter(other_url_pred(text));
        crate::seqs::lemma_filter_membership(a.bookmarks.bookmarks, other_url_pred(text));
        if exists|i: int| 0 <= i < kept.len() && kept[i].url.text == text {
            let i = choose|i: int| 0 <= i < kept.len() && kept[i].url.text == text;
            assert(kept.contains(kept[i]));
        }
    } else {
        let nb = BookmarkView { title: t.title, url: t.url, folder: None, tags: Seq::empty(), created_at: now };
        let added = a.bookmarks.added(nb);
        assert(added.bookmarks[added.bookmarks.len() - 1] == nb);
    }
}

/// Going back and then forward again in the application returns the tabs
/// to where they were, when the active tab's buttons agree with its stacks
/// and it has somewhere to go back to; the engine is sent back and forth.
pub proof fn lemma_back_forward_restores_tabs(a: AppView)
    requires
        a.wf(),
        a.has_active(),
        a.active().flags_match_stacks(),
        a.active().back.len() > 0,
    ensures
        ({
            let (b, to_back) = a.after_action(BrowserAction::GoBack, 0);
            let (c, to_forward) = b.after_action(BrowserAction::GoForward, 0);
            &&& c.tabs == a.tabs
            &&& to_back == Some(a.active().back.last())
            &&& to_forward == Some(a.active().url)
        }),
{
    let t = a.active();
    crate::browser::tab::lemma_back_then_forward_restores(t);
    let b = a.after_action(BrowserAction::GoBack, 0).0;
    assert(b.active() == t.went_back());
    assert(b.tabs.tabs.update(b.tabs.active_index as int, t) =~= a.tabs.tabs);
}

/// After a change of tabs the address bar shows the active tab's URL, its
/// star whether that URL is bookmarked, and its buttons where the tab can go.
pub proof fn lemma_synced_shows_active_tab(a: AppView)
    requires
        a.has_active(),
    ensures
        a.synced().toolbar.address_text == a.active().url.text,
        a.synced().toolbar.is_bookmarked == a.bookmarks.has_url(a.active().url.text),
        (a.synced().toolbar.back == ButtonState::Enabled) == a.active().can_go_back,
        (a.synced().toolbar.forward == ButtonState::Enabled) == a.active().can_go_forward,
        !a.synced().toolbar.address_focused,
{
}

} // verus!

verus! {

/// Bookmarking a page that was not bookmarked and then removing the
/// bookmark again leaves the bookmarks as they were.
pub proof fn lemma_bookmark_twice_restores(
    b: BookmarkManagerView,
    title: Seq<char>,
    url: UrlView,
    now: i64,
    later: i64,
)
    requires
        b.wf(),
        !b.has_url(url.text),
    ensures
        bookmark_toggled(bookmark_toggled(b, title, url, now), title, url, later) == b,
{
    let nb = BookmarkView { title, url, folder: None, tags: Seq::empty(), created_at: now };
    let added = b.added(nb);
    assert(added.bookmarks == b.bookmarks.push(nb));
    assert(added.has_url(url.text)) by {
        assert(added.bookmarks[added.bookmarks.len() - 1] == nb);
    }
    reveal(Seq::filter);
    let pred = other_url_pred(url.text);
    assert(b.bookmarks.filter(pred) =~= b.bookmarks) by {
        assert forall|i: int| 0 <= i < b.bookmarks.len() implies pred(b.bookmarks[i]) by {}
        crate::seqs::lemma_filter_all(b.bookmarks, pred);
    }
    assert(b.bookmarks.push(nb).drop_last() =~= b.bookmarks);
    assert(b.bookmarks.push(nb).filter(pred) =~= b.bookmarks.filter(pred));
}

/// Toggling the bookmark of a page twice leaves the page bookmarked exactly
/// when it was before, and the number of bookmarks as it was; the first
/// toggle flips whether it is bookmarked and adds or removes one bookmark.
pub proof fn lemma_bookmark_toggle_round_trip(
    b: BookmarkManagerView,
    title: Seq<char>,
    url: UrlView,
    now: i64,
    later: i64,
)
    requires
        b.wf(),
    ensures
        ({
            let once = bookmark_toggled(b, title, url, now);
            let twice = bookmark_toggled(once, title, url, later);
            &&& once.has_url(url.text) == !b.has_url(url.text)
            &&& once.bookmarks.len() as int == if b.has_url(url.text) {
                b.bookmarks.len() - 1
            } else {
                b.bookmarks.len() + 1int
            }
            &&& twice.has_url(url.text) == b.has_url(url.text)
            &&& twice.bookmarks.len() == b.bookmarks.len()
        }),
{
    let text = url.text;
    let pred = other_url_pred(text);
    let once = bookmark_toggled(b, title, url, now);
    if b.has_url(text) {
        let k = choose|k: int| 0 <= k < b.bookmarks.len() && b.bookmarks[k].url.text == text;
        assert forall|i: int| 0 <= i < b.bookmarks.len() && i != k implies pred(#[trigger] b.bookmarks[i]) by {
            assert(bookmark_key()(b.bookmarks[i]) != bookmark_key()(b.bookmarks[k]));
        }
        crate::seqs::lemma_filter_drops_one(b.bookmarks, pred, k);
        crate::seqs::lemma_filter_membership(b.bookmarks, pred);
        crate::seqs::lemma_filter_unique(b.bookmarks, bookmark_key(), pred);
        if once.has_url(text) {
            let j = choose|j: int| 0 <= j < once.bookmarks.len() && once.bookmarks[j].url.text == text;
            assert(once.bookmarks.contains(once.bookmarks[j]));
        }
        let nb = BookmarkView { title, url, folder: None, tags: Seq::empty(), created_at: later };
        let twice = once.added(nb);
        assert(twice.bookmarks[twice.bookmarks.len() - 1] == nb);
    } else {
        lemma_bookmark_twice_restores(b, title, url, now, later);
        let nb = BookmarkView { title, url, folder: None, tags: Seq::empty(), created_at: now };
        assert(once.bookmarks[once.bookmarks.len() - 1] == nb);
    }
}

} // verus!

verus! {

/// A page's new title goes to the active tab and into the history: the
/// visit is recorded at the front of the history under the new title and
/// the tab's URL (when its visit count can still grow; else the history is
/// left alone). The tab stays where it was, with the same URL, and nothing
/// is sent to the engine.
pub proof fn lemma_title_changed_records_visit(a: AppView, title: String, now: i64)
    requires
        a.wf(),
        a.has_active(),
    ensures
        ({
            let (b, load) = a.after_message(IpcMessage::TitleChanged { title }, now);
            &&& load is None
            &&& b.has_active()
            &&& b.tabs.active_index == a.tabs.active_index
            &&& b.tabs.tabs.len() == a.tabs.tabs.len()
            &&& b.active().title == title@
            &&& b.active().url == a.active().url
            &&& b.bookmarks == a.bookmarks
            &&& a.history.can_count_visit(a.active().url.text) ==> {
                &&& b.history.entries.len() > 0
                &&& b.history.entries[0].title == title@
                &&& b.history.entries[0].url.text == a.active().url.text
                &&& b.history.entries[0].timestamp == now
            }
            &&& !a.history.can_count_visit(a.active().url.text) ==> b.history == a.history
        }),
{
    crate::browser::history::lemma_recorded_first(a.history, title@, a.active().url, now);
}

} // verus!

verus! {

/// Switching to tab `i` makes it active and shows its address, without
/// changing the tabs, and the engine loads its page; an index past the last
/// tab changes nothing.
pub proof fn lemma_switch_to_tab(a: AppView, i: usize, now: i64)
    requires
        a.wf(),
    ensures
        ({
            let (b, load) = a.after_action(BrowserAction::SwitchToTab(i), now);
            &&& i < a.tabs.tabs.len() ==> {
                &&& b.tabs.tabs == a.tabs.tabs
                &&& b.tabs.active_index == i
                &&& load == Some(a.tabs.tabs[i as int].url)
                &&& b.toolbar.address_text == a.tabs.tabs[i as int].url.text
            }
            &&& i >= a.tabs.tabs.len() ==> b == a && load is None
        }),
{
}

/// The next and previous tab actions move the active tab one to the right
/// or left (wrapping round), keep the tabs, and load the page of the tab
/// that becomes active.
pub proof fn lemma_next_prev_actions(a: AppView, now: i64)
    requires
        a.wf(),
        a.has_active(),
        a.tabs.tabs.len() <= usize::MAX,
    ensures
        ({
            let (n, load_n) = a.after_action(BrowserAction::NextTab, now);
            let (p, load_p) = a.after_action(BrowserAction::PrevTab, now);
            let k = a.tabs.active_index as int;
            let len = a.tabs.tabs.len() as int;
            &&& n.tabs.tabs == a.tabs.tabs && p.tabs.tabs == a.tabs.tabs
            &&& n.tabs.active_index == if k + 1 < len { k + 1 } else { 0 }
            &&& p.tabs.active_index == if k > 0 { k - 1 } else { len - 1 }
            &&& load_n == Some(n.active().url)
            &&& load_p == Some(p.active().url)
        }),
{
    crate::browser::tabs::lemma_step_moves_one(a.tabs);
}

/// Reloading (plainly or hard) marks the active tab loading and has the
/// engine load its page again; stopping marks it not loading and loads
/// nothing. The tab keeps its address.
pub proof fn lemma_reload_and_stop(a: AppView, now: i64)
    requires
        a.wf(),
        a.has_active(),
    ensures
        ({
            let (r, load_r) = a.after_action(BrowserAction::Reload, now);
            let (h, load_h) = a.after_action(BrowserAction::ReloadHard, now);
            let (s, load_s) = a.after_action(BrowserAction::Stop, now);
            &&& load_r == Some(a.active().url) && load_h == Some(a.active().url)
            &&& r.active().loading && h.active().loading && !s.active().loading
            &&& r.active().url == a.active().url && s.active().url == a.active().url
            &&& r.tabs.active_index == a.tabs.active_index && s.tabs.active_index == a.tabs.active_index
            &&& load_s is None
        }),
{
}

/// Submitting the address bar has the engine load what the entry
/// normalizes to; the active tab goes there (its old address onto the back
/// stack) and starts loading, and the address bar loses focus. An entry that
/// normalizes to nothing loads nothing and leaves the tabs alone.
pub proof fn lemma_address_bar_submit(a: AppView, now: i64)
    requires
        a.wf(),
    ensures
        ({
            let (b, load) = a.after_action(BrowserAction::AddressBarSubmit, now);
            &&& load == normalized(a.toolbar.submitted_text())
            &&& !b.toolbar.address_focused
            &&& !b.keybindings.address_bar_focused
            &&& b.toolbar.suggestions.len() == 0
            &&& (load is Some && a.has_active()) ==> {
                &&& b.tabs.active_index == a.tabs.active_index
                &&& b.active().url == load->0
                &&& b.active().loading
                &&& b.active().back == a.active().back.push(a.active().url)
                &&& b.active().forward.len() == 0
            }
            &&& load is None ==> b.tabs == a.tabs
        }),
{
}

/// A new tab opens right after the active one on the homepage (normalized,
/// or the blank page), becomes active with the address bar focused for
/// typing, and loads nothing yet; duplicating opens a copy of the active
/// tab's address right after it, makes it active and loads it.
pub proof fn lemma_new_and_duplicate_tab(a: AppView, now: i64)
    requires
        a.wf(),
        a.tabs.tabs.len() + 1 < usize::MAX,
    ensures
        ({
            let (n, load_n) = a.after_action(BrowserAction::NewTab, now);
            &&& load_n is None
            &&& new_tab_page(a.config.homepage@) is Some ==> {
                let u = new_tab_page(a.config.homepage@)->0;
                &&& n.tabs.tabs.len() == a.tabs.tabs.len() + 1
                &&& n.tabs.active_index == a.tabs.after_active_slot()
                &&& n.active().url == u
                &&& n.toolbar.address_focused
            }
        }),
        a.has_active() ==> ({
            let (d, load_d) = a.after_action(BrowserAction::DuplicateTab, now);
            &&& d.tabs.tabs.len() == a.tabs.tabs.len() + 1
            &&& d.tabs.active_index == a.tabs.active_index + 1
            &&& d.active().url == a.active().url
            &&& load_d == Some(a.active().url)
            &&& forall|i: int| 0 <= i <= a.tabs.active_index ==> #[trigger] d.tabs.tabs[i] == a.tabs.tabs[i]
        }),
{
    if new_tab_page(a.config.homepage@) is Some {
        crate::browser::tabs::lemma_inserted_opens_tab(
            a.tabs,
            a.tabs.after_active_slot(),
            new_tab_page(a.config.homepage@)->0,
        );
    }
    if a.has_active() {
        crate::browser::tabs::lemma_inserted_opens_tab(a.tabs, a.tabs.after_active_slot(), a.active().url);
    }
}

/// The panel and toggle actions: the bookmark bar and the sidebar flip, the
/// bookmark, history and download actions show their panel, vim mode flips
/// (back to normal mode when turned off), and finding, zooming, full screen
/// and the developer tools leave the application as it is. None of them
/// loads anything or changes the tabs.
pub proof fn lemma_panel_actions(a: AppView, now: i64)
    ensures
        a.after_action(BrowserAction::ToggleBookmarkBar, now).0.toolbar.show_bookmark_bar
            == !a.toolbar.show_bookmark_bar,
        a.after_action(BrowserAction::ToggleSidebar, now).0.sidebar.visible == !a.sidebar.visible,
        a.after_action(BrowserAction::ShowBookmarks, now).0.sidebar.visible,
        a.after_action(BrowserAction::ShowBookmarks, now).0.sidebar.panel == SidebarPanel::Bookmarks,
        a.after_action(BrowserAction::ShowHistory, now).0.sidebar.visible,
        a.after_action(BrowserAction::ShowHistory, now).0.sidebar.panel == SidebarPanel::History,
        a.after_action(BrowserAction::ShowDownloads, now).0.sidebar.visible,
        a.after_action(BrowserAction::ShowDownloads, now).0.sidebar.panel == SidebarPanel::Downloads,
        a.after_action(BrowserAction::ToggleVimMode, now).0.keybindings.vim_enabled == !a.keybindings.vim_enabled,
        a.keybindings.vim_enabled ==> a.after_action(BrowserAction::ToggleVimMode, now).0.keybindings.vim_mode
            == VimMode::Normal,
        a.after_action(BrowserAction::FocusAddressBar, now).0.toolbar.address_focused,
        a.after_action(BrowserAction::ZoomIn, now) == (a, None::<UrlView>),
        a.after_action(BrowserAction::ZoomOut, now) == (a, None::<UrlView>),
        a.after_action(BrowserAction::ZoomReset, now) == (a, None::<UrlView>),
        a.after_action(BrowserAction::FindOnPage, now) == (a, None::<UrlView>),
        a.after_action(BrowserAction::ToggleFullscreen, now) == (a, None::<UrlView>),
        a.after_action(BrowserAction::ToggleDevTools, now) == (a, None::<UrlView>),
        a.after_action(BrowserAction::ToggleBookmarkBar, now).0.tabs == a.tabs,
        a.after_action(BrowserAction::ToggleSidebar, now).0.tabs == a.tabs,
        a.after_action(BrowserAction::ToggleBookmarkBar, now).1 is None,
        a.after_action(BrowserAction::ShowHistory, now).1 is None,
{
}

} // verus!

verus! {

/// Closing the active tab (when it is not pinned and others are open)
/// removes it and makes its right neighbour active, or its left neighbour
/// when it was the last; the engine loads the newly active page. A pinned
/// active tab is not closed.
pub proof fn lemma_close_tab_action(a: AppView, now: i64)
    requires
        a.wf(),
        crate::browser::tabs::ids_fresh(a.tabs),
        a.has_active(),
    ensures
        ({
            let (b, load) = a.after_action(BrowserAction::CloseTab, now);
            let k = a.tabs.active_index as int;
            let n = a.tabs.tabs.len() as int;
            &&& a.active().pinned ==> b.tabs == a.tabs && load == Some(a.active().url)
            &&& !a.active().pinned && n > 1 ==> {
                &&& b.tabs.tabs.len() == n - 1
                &&& b.active() == if k + 1 < n { a.tabs.tabs[k + 1] } else { a.tabs.tabs[k - 1] }
                &&& load == Some(b.active().url)
                &&& !crate::browser::tabs::has_id(b.tabs.tabs, a.active().id)
            }
        }),
{
    let t = a.tabs;
    let k = t.active_index as int;
    if !a.active().pinned && t.tabs.len() > 1 {
        let id = t.tabs[k].id;
        crate::browser::tabs::lemma_position_of(t.tabs, id);
        let pos = position_of(t.tabs, id);
        if pos != k {
            assert(t.tabs[pos].id == t.tabs[k].id);
        }
        crate::browser::tabs::lemma_close_keeps_focus(t, k);
        crate::browser::tabs::lemma_closed_drops_id(t, id);
    }
}

} // verus!
