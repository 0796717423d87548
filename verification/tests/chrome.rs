use namimado::browser::bookmark::{Bookmark, BookmarkManager};
use namimado::chrome::sidebar::{Sidebar, SidebarPanel};
use namimado::chrome::statusbar::{SecurityLevel, StatusBar};
use namimado::chrome::toolbar::{AddressSuggestion, ButtonState, SuggestionSource, Toolbar};
use namimado::location::Url;

#[test]
fn toggle_visibility() {
    let mut sidebar = Sidebar::new();
    assert!(!sidebar.visible);
    sidebar.toggle();
    assert!(sidebar.visible);
    sidebar.toggle();
    assert!(!sidebar.visible);
}

#[test]
fn show_panel() {
    let mut sidebar = Sidebar::new();
    sidebar.show(SidebarPanel::History);
    assert!(sidebar.visible);
    assert_eq!(sidebar.panel, SidebarPanel::History);
}

#[test]
fn switch_panel_clears_search() {
    let mut sidebar = Sidebar::new();
    sidebar.set_search("test");
    sidebar.switch_panel(SidebarPanel::Downloads);
    assert!(sidebar.search_text.is_empty());
    assert_eq!(sidebar.panel, SidebarPanel::Downloads);
}

#[test]
fn filtered_bookmarks_with_search() {
    let mut bookmarks = BookmarkManager::new();
    bookmarks.add(Bookmark::new("Rust", Url::parse("https://rust-lang.org").unwrap()));
    bookmarks.add(Bookmark::new("Go", Url::parse("https://go.dev").unwrap()));

    let mut sidebar = Sidebar::new();
    sidebar.set_search("rust");
    let filtered = sidebar.filtered_bookmarks(&bookmarks);
    assert_eq!(filtered.len(), 1);
    assert_eq!(filtered[0].title, "Rust");
}

#[test]
fn scroll_operations() {
    let mut sidebar = Sidebar::new();
    sidebar.scroll_down();
    assert_eq!(sidebar.scroll_offset, 20);
    sidebar.scroll_up();
    assert_eq!(sidebar.scroll_offset, 0);
    sidebar.scroll_up();
    assert_eq!(sidebar.scroll_offset, 0);
}

#[test]
fn hide_sidebar_keeps_panel() {
    let mut sidebar = Sidebar::new();
    sidebar.show(SidebarPanel::Downloads);
    sidebar.hide_sidebar();
    assert!(!sidebar.visible);
    assert_eq!(sidebar.panel, SidebarPanel::Downloads);
}

#[test]
fn empty_search_shows_all_bookmarks() {
    let mut bookmarks = BookmarkManager::new();
    bookmarks.add(Bookmark::new("Rust", Url::parse("https://rust-lang.org").unwrap()));
    bookmarks.add(Bookmark::new("Go", Url::parse("https://go.dev").unwrap()));
    let mut sidebar = Sidebar::new();
    sidebar.set_search("rust");
    sidebar.clear_search();
    assert_eq!(sidebar.filtered_bookmarks(&bookmarks).len(), 2);
}

#[test]
fn security_from_url() {
    assert_eq!(SecurityLevel::from_url(&Url::parse("https://x.com").unwrap()), SecurityLevel::Secure);
    assert_eq!(SecurityLevel::from_url(&Url::parse("http://x.com").unwrap()), SecurityLevel::Insecure);
    assert_eq!(SecurityLevel::from_url(&Url::parse("about:blank").unwrap()), SecurityLevel::Internal);
}

#[test]
fn security_labels_and_other_schemes() {
    assert_eq!(SecurityLevel::from_url(&Url::parse("data:text/plain,hi").unwrap()), SecurityLevel::Internal);
    assert_eq!(SecurityLevel::from_url(&Url::parse("ftp://x.com").unwrap()), SecurityLevel::Insecure);
    assert_eq!(SecurityLevel::Secure.label(), "Secure");
    assert_eq!(SecurityLevel::Insecure.label(), "Not Secure");
    assert_eq!(SecurityLevel::Mixed.label(), "Mixed Content");
    assert_eq!(SecurityLevel::Internal.label(), "");
}

#[test]
fn load_lifecycle() {
    let mut bar = StatusBar::new();
    let url = Url::parse("https://example.com").unwrap();

    bar.on_load_start(&url);
    assert!(bar.progress.is_some());
    assert_eq!(bar.security, SecurityLevel::Secure);

    // A progress report of one half, as the program records it.
    bar.progress = Some(0.5f32.clamp(0.0, 1.0).to_bits());
    assert!((f32::from_bits(bar.progress.unwrap()) - 0.5).abs() < f32::EPSILON);

    bar.on_load_end(&url);
    assert!(bar.progress.is_none());
}

#[test]
fn load_start_text_names_the_host() {
    let mut bar = StatusBar::new();
    bar.on_load_start(&Url::parse("https://example.com/x").unwrap());
    assert_eq!(bar.display_text(), "Loading example.com...");
    assert_eq!(bar.progress, Some(0));
    bar.on_load_end(&Url::parse("https://example.com/x").unwrap());
    assert_eq!(bar.display_text(), "");
}

#[test]
fn hover_url_takes_priority() {
    let mut bar = StatusBar::new();
    bar.status_text = Some("Loading...".into());
    bar.set_hover_url(Some("https://link.com".into()));
    assert_eq!(bar.display_text(), "https://link.com");
}

#[test]
fn sync_with_tab() {
    let mut toolbar = Toolbar::new();
    let url = Url::parse("https://example.com").unwrap();
    toolbar.sync_with_tab(&url, true, false, true, true);

    assert_eq!(toolbar.url_bar_text(), "https://example.com/");
    assert!(toolbar.back.is_enabled());
    assert!(!toolbar.forward.is_enabled());
    assert!(toolbar.loading);
    assert!(toolbar.is_bookmarked);
}

#[test]
fn handle_input_and_submit() {
    let mut toolbar = Toolbar::new();
    toolbar.handle_input("rust");
    assert!(toolbar.address_focused);
    assert_eq!(toolbar.url_bar_text(), "rust");

    let submitted = toolbar.submit_address();
    assert_eq!(submitted, "rust");
    assert!(!toolbar.address_focused);
}

fn two_suggestions() -> Vec<AddressSuggestion> {
    vec![
        AddressSuggestion { url: "https://a.com".into(), title: "A".into(), source: SuggestionSource::History },
        AddressSuggestion { url: "https://b.com".into(), title: "B".into(), source: SuggestionSource::Bookmark },
    ]
}

#[test]
fn suggestion_navigation() {
    let mut toolbar = Toolbar::new();
    toolbar.set_suggestions(two_suggestions());

    toolbar.select_next_suggestion();
    assert_eq!(toolbar.selected_suggestion, Some(0));

    toolbar.select_next_suggestion();
    assert_eq!(toolbar.selected_suggestion, Some(1));

    toolbar.select_next_suggestion();
    assert_eq!(toolbar.selected_suggestion, Some(0));

    toolbar.select_prev_suggestion();
    assert_eq!(toolbar.selected_suggestion, Some(1));
}

#[test]
fn submit_with_selected_suggestion() {
    let mut toolbar = Toolbar::new();
    toolbar.handle_input("exa");
    toolbar.set_suggestions(vec![AddressSuggestion {
        url: "https://example.com".into(),
        title: "Example".into(),
        source: SuggestionSource::History,
    }]);
    toolbar.select_next_suggestion();

    let submitted = toolbar.submit_address();
    assert_eq!(submitted, "https://example.com");
}

#[test]
fn dismiss_clears_suggestions() {
    let mut toolbar = Toolbar::new();
    toolbar.set_suggestions(vec![AddressSuggestion {
        url: "https://a.com".into(),
        title: "A".into(),
        source: SuggestionSource::History,
    }]);
    toolbar.focus_address_bar();
    toolbar.dismiss_address_bar();

    assert!(!toolbar.address_focused);
    assert!(toolbar.suggestions.is_empty());
}

#[test]
fn download_indicator() {
    let mut toolbar = Toolbar::new();
    assert_eq!(toolbar.active_downloads, 0);
    toolbar.set_active_downloads(3);
    assert_eq!(toolbar.active_downloads, 3);
}

#[test]
fn bookmark_bar_toggle() {
    let mut toolbar = Toolbar::new();
    assert!(toolbar.show_bookmark_bar);
    toolbar.toggle_bookmark_bar();
    assert!(!toolbar.show_bookmark_bar);
}

#[test]
fn prev_then_next_keeps_the_selection() {
    let mut toolbar = Toolbar::new();
    toolbar.set_suggestions(two_suggestions());
    toolbar.select_next_suggestion();
    toolbar.select_prev_suggestion();
    toolbar.select_next_suggestion();
    assert_eq!(toolbar.selected_suggestion, Some(0));
    toolbar.select_prev_suggestion();
    assert_eq!(toolbar.selected_suggestion, Some(1));
}

#[test]
fn selection_without_suggestions_stays_none() {
    let mut toolbar = Toolbar::new();
    toolbar.select_next_suggestion();
    toolbar.select_prev_suggestion();
    assert_eq!(toolbar.selected_suggestion, None);
}

#[test]
fn button_state_from_bool() {
    assert_eq!(ButtonState::from_bool(true), ButtonState::Enabled);
    assert_eq!(ButtonState::from_bool(false), ButtonState::Disabled);
    let mut toolbar = Toolbar::new();
    toolbar.set_bookmarked(true);
    assert!(toolbar.is_bookmarked);
}
