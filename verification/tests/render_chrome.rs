use namimado::browser::tabs::TabManager;
use namimado::chrome::toolbar::Toolbar;
use namimado::location::Url;
use namimado::render::chrome::tab_entries;

#[test]
fn build_chrome_frame() {
    let mut tabs = TabManager::new();
    tabs.add_tab(Url::parse("https://example.com").unwrap());
    tabs.add_tab(Url::parse("https://rust-lang.org").unwrap());

    let mut toolbar = Toolbar::new();
    toolbar.sync_with_tab(&Url::parse("https://rust-lang.org").unwrap(), true, false, false, false);

    let entries = tab_entries(&tabs);
    assert_eq!(entries.len(), 2);
    assert_eq!(tabs.active_index(), 1);
    assert!(entries[1].active && !entries[0].active);
    assert!(toolbar.back.is_enabled());
    assert!(!toolbar.forward.is_enabled());
    assert!(!toolbar.loading);
}

#[test]
fn pinned_tab_truncated_title() {
    let mut tabs = TabManager::new();
    let id = tabs.add_tab(Url::parse("https://example.com").unwrap());
    tabs.get_tab_mut(id).unwrap().title = "Example Website".into();
    tabs.get_tab_mut(id).unwrap().pinned = true;

    let entries = tab_entries(&tabs);
    assert_eq!(entries[0].title, "Exa");
    assert!(entries[0].pinned);
}

#[test]
fn short_pinned_title_and_unpinned_title_are_whole() {
    let mut tabs = TabManager::new();
    let a = tabs.add_tab(Url::parse("https://a.com").unwrap());
    tabs.get_tab_mut(a).unwrap().title = "Go".into();
    tabs.get_tab_mut(a).unwrap().pinned = true;
    let b = tabs.add_tab(Url::parse("https://b.com").unwrap());
    tabs.get_tab_mut(b).unwrap().title = "Long title here".into();
    let entries = tab_entries(&tabs);
    assert_eq!(entries[0].title, "Go");
    assert_eq!(entries[1].title, "Long title here");
}
