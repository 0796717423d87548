use namimado::browser::navigation;
use namimado::chrome::sidebar::SidebarPanel;
use namimado::config::NamimadoConfig;
use namimado::coordinator::App;
use namimado::input::keybindings::BrowserAction;
use namimado::ipc::IpcMessage;
use namimado::location::Url;
use namimado::render::chrome::tab_entries;

fn config() -> NamimadoConfig {
    NamimadoConfig::for_home(Some("/home/user"))
}

fn app(url: &str) -> App {
    App::new(url, false, config()).unwrap()
}

#[test]
fn app_new_creates_tab() {
    let app = app("https://example.com");
    assert_eq!(app.tabs.len(), 1);
    assert_eq!(app.tabs.active_tab().unwrap().url.as_str(), "https://example.com/");
}

#[test]
fn app_uses_homepage_when_about_blank() {
    let app = app("about:blank");
    assert_eq!(app.tabs.active_tab().unwrap().url.as_str(), "about:blank");
}

#[test]
fn app_uses_configured_homepage_for_blank_start() {
    let mut cfg = config();
    cfg.homepage = "https://home.example".into();
    let app = App::new("about:blank", false, cfg).unwrap();
    assert_eq!(app.tabs.active_tab().unwrap().url.as_str(), "https://home.example/");
    assert_eq!(app.toolbar.url_bar_text(), "https://home.example/");
}

#[test]
fn app_new_takes_sidebar_and_download_settings() {
    let mut cfg = config();
    cfg.sidebar.visible = true;
    cfg.sidebar.width = 420;
    cfg.downloads.ask_location = true;
    let app = App::new("https://example.com", true, cfg).unwrap();
    assert!(app.sidebar.visible);
    assert_eq!(app.sidebar.width, 420);
    assert!(app.downloads.ask_location);
    assert_eq!(app.downloads.download_dir, std::path::PathBuf::from("/home/user/Downloads"));
}

#[test]
fn handle_action_new_tab() {
    let mut app = app("https://example.com");
    app.handle_action(BrowserAction::NewTab);
    assert_eq!(app.tabs.len(), 2);
    assert!(app.toolbar.address_focused);
}

#[test]
fn handle_action_close_tab_keeps_one() {
    let mut app = app("https://example.com");
    let target = app.handle_action(BrowserAction::CloseTab);
    assert_eq!(app.tabs.len(), 1);
    assert_eq!(app.tabs.active_tab().unwrap().url.as_str(), "about:blank");
    assert_eq!(target.unwrap().as_str(), "about:blank");
}

#[test]
fn handle_action_bookmark_toggle() {
    let mut app = app("https://example.com");
    assert!(!app.toolbar.is_bookmarked);

    app.handle_action(BrowserAction::BookmarkPage);
    assert!(app.toolbar.is_bookmarked);
    assert!(app.bookmarks.is_bookmarked(&Url::parse("https://example.com").unwrap()));

    app.handle_action(BrowserAction::BookmarkPage);
    assert!(!app.toolbar.is_bookmarked);
}

#[test]
fn handle_action_back_forward() {
    let mut app = app("https://one.com");
    if let Some(tab) = app.tabs.active_tab_mut() {
        navigation::navigate(tab, Url::parse("https://two.com").unwrap());
    }
    app.sync_toolbar();
    assert!(app.toolbar.back.is_enabled());

    let back = app.handle_action(BrowserAction::GoBack);
    assert_eq!(app.tabs.active_tab().unwrap().url.as_str(), "https://one.com/");
    assert_eq!(back.unwrap().as_str(), "https://one.com/");

    let forward = app.handle_action(BrowserAction::GoForward);
    assert_eq!(app.tabs.active_tab().unwrap().url.as_str(), "https://two.com/");
    assert_eq!(forward.unwrap().as_str(), "https://two.com/");
}

#[test]
fn handle_action_restore_closed() {
    let mut app = app("https://one.com");
    let id2 = app.tabs.add_tab(Url::parse("https://two.com").unwrap());
    app.tabs.close_tab(id2);
    assert_eq!(app.tabs.len(), 1);

    app.handle_action(BrowserAction::RestoreClosedTab);
    assert_eq!(app.tabs.len(), 2);
}

#[test]
fn handle_action_address_bar_flow() {
    let mut app = app("https://example.com");

    app.handle_action(BrowserAction::FocusAddressBar);
    assert!(app.toolbar.address_focused);
    assert!(app.keybindings.address_bar_focused);

    app.toolbar.handle_input("rust-lang.org");
    let target = app.handle_action(BrowserAction::AddressBarSubmit);
    assert!(!app.toolbar.address_focused);
    assert!(!app.keybindings.address_bar_focused);
    assert_eq!(app.tabs.active_tab().unwrap().url.as_str(), "https://rust-lang.org/");
    assert_eq!(target.unwrap().as_str(), "https://rust-lang.org/");
}

#[test]
fn handle_action_sidebar() {
    let mut app = app("https://example.com");
    assert!(!app.sidebar.visible);

    app.handle_action(BrowserAction::ShowHistory);
    assert!(app.sidebar.visible);
    assert_eq!(app.sidebar.panel, SidebarPanel::History);

    app.handle_action(BrowserAction::ToggleSidebar);
    assert!(!app.sidebar.visible);
}

#[test]
fn autocomplete_from_history() {
    let mut app = app("https://example.com");
    app.history.record_visit("Rust", Url::parse("https://rust-lang.org").unwrap());
    app.history.record_visit("Go", Url::parse("https://go.dev").unwrap());

    app.toolbar.handle_input("rust");
    app.update_autocomplete();
    assert_eq!(app.toolbar.suggestions.len(), 1);
    assert_eq!(app.toolbar.suggestions[0].title, "Rust");
}

#[test]
fn autocomplete_adds_bookmarks_without_duplicates() {
    let mut app = app("https://example.com");
    app.history.record_visit("Rust", Url::parse("https://rust-lang.org").unwrap());
    app.bookmarks.toggle("Rust book", Url::parse("https://rust-lang.org").unwrap());
    app.bookmarks.toggle("Rustonomicon", Url::parse("https://doc.rust-lang.org/nomicon").unwrap());

    app.toolbar.handle_input("rust");
    app.update_autocomplete();
    let urls: Vec<&str> = app.toolbar.suggestions.iter().map(|s| s.url.as_str()).collect();
    assert_eq!(urls, vec!["https://rust-lang.org/", "https://doc.rust-lang.org/nomicon"]);
    assert_eq!(app.toolbar.selected_suggestion, None);
}

#[test]
fn autocomplete_of_empty_bar_is_empty() {
    let mut app = app("https://example.com");
    app.history.record_visit("Rust", Url::parse("https://rust-lang.org").unwrap());
    app.toolbar.handle_input("");
    app.update_autocomplete();
    assert!(app.toolbar.suggestions.is_empty());
}

#[test]
fn autocomplete_keeps_at_most_ten() {
    let mut app = app("https://example.com");
    for i in 0..15 {
        let u = format!("https://site{i}.example");
        app.history.record_visit("Site", Url::parse(&u).unwrap());
    }
    app.toolbar.handle_input("site");
    app.update_autocomplete();
    assert_eq!(app.toolbar.suggestions.len(), 10);
}

#[test]
fn ipc_title_changed_records_history() {
    let mut app = app("https://example.com");
    app.handle_ipc(IpcMessage::TitleChanged { title: "Example Domain".into() });

    assert_eq!(app.tabs.active_tab().unwrap().title, "Example Domain");
    assert_eq!(app.history.len(), 1);
}

#[test]
fn ipc_load_lifecycle() {
    let mut app = app("https://example.com");

    app.handle_ipc(IpcMessage::LoadStart);
    assert!(app.tabs.active_tab().unwrap().loading);
    assert!(app.status_bar.progress.is_some());

    app.handle_ipc(IpcMessage::LoadEnd);
    assert!(!app.tabs.active_tab().unwrap().loading);
    assert!(app.status_bar.progress.is_none());
}

#[test]
fn ipc_navigate_moves_the_active_tab() {
    let mut app = app("https://example.com");
    let target = app.handle_ipc(IpcMessage::Navigate { url: "rust-lang.org".into() });
    assert_eq!(target.unwrap().as_str(), "https://rust-lang.org/");
    assert_eq!(app.tabs.active_tab().unwrap().url.as_str(), "https://rust-lang.org/");
    assert!(app.toolbar.back.is_enabled());
    assert_eq!(app.toolbar.url_bar_text(), "https://rust-lang.org/");
}

#[test]
fn chrome_frame_builds_successfully() {
    let app = app("https://example.com");
    let entries = tab_entries(&app.tabs);
    assert_eq!(entries.len(), 1);
}

#[test]
fn close_pinned_tab_keeps_it() {
    let mut app = app("https://example.com");
    app.handle_action(BrowserAction::PinTab);
    assert!(app.tabs.active_tab().unwrap().pinned);
    app.handle_action(BrowserAction::CloseTab);
    assert_eq!(app.tabs.len(), 1);
    assert_eq!(app.tabs.active_tab().unwrap().url.as_str(), "https://example.com/");
}

#[test]
fn tab_switch_syncs_the_toolbar_and_engine() {
    let mut app = app("https://one.com");
    app.tabs.add_tab(Url::parse("https://two.com").unwrap());
    let target = app.handle_action(BrowserAction::SwitchToTab(0));
    assert_eq!(target.unwrap().as_str(), "https://one.com/");
    assert_eq!(app.toolbar.url_bar_text(), "https://one.com/");
    assert!(app.handle_action(BrowserAction::SwitchToTab(7)).is_none());
    let next = app.handle_action(BrowserAction::NextTab);
    assert_eq!(next.unwrap().as_str(), "https://two.com/");
    let prev = app.handle_action(BrowserAction::PrevTab);
    assert_eq!(prev.unwrap().as_str(), "https://one.com/");
}

#[test]
fn reload_and_stop() {
    let mut app = app("https://one.com");
    let target = app.handle_action(BrowserAction::Reload);
    assert_eq!(target.unwrap().as_str(), "https://one.com/");
    assert!(app.tabs.active_tab().unwrap().loading);
    assert!(app.toolbar.loading);
    assert!(app.handle_action(BrowserAction::Stop).is_none());
    assert!(!app.tabs.active_tab().unwrap().loading);
    assert!(app.handle_action(BrowserAction::ReloadHard).is_some());
}

#[test]
fn duplicate_and_vim_toggle() {
    let mut app = app("https://one.com");
    let target = app.handle_action(BrowserAction::DuplicateTab);
    assert_eq!(app.tabs.len(), 2);
    assert_eq!(app.tabs.active_index(), 1);
    assert_eq!(target.unwrap().as_str(), "https://one.com/");
    app.handle_action(BrowserAction::ToggleVimMode);
    assert!(app.keybindings.vim_enabled);
    app.handle_action(BrowserAction::ToggleBookmarkBar);
    assert!(!app.toolbar.show_bookmark_bar);
    assert!(app.handle_action(BrowserAction::ZoomIn).is_none());
}

#[test]
fn address_bar_dismiss_restores_the_url() {
    let mut app = app("https://one.com");
    app.handle_action(BrowserAction::FocusAddressBar);
    app.toolbar.handle_input("typing");
    app.handle_action(BrowserAction::AddressBarDismiss);
    assert!(!app.toolbar.address_focused);
    assert!(!app.keybindings.address_bar_focused);
    assert_eq!(app.toolbar.url_bar_text(), "https://one.com/");
}
