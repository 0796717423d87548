use namimado::browser::tab::{Tab, TabId};
use namimado::location::Url;

fn url(s: &str) -> Url {
    Url::parse(s).unwrap()
}

#[test]
fn tab_ids_are_unique() {
    let mut counter: u64 = 1;
    let a = TabId::next(&mut counter);
    let b = TabId::next(&mut counter);
    assert_ne!(a, b);
}

#[test]
fn new_tab_has_url_as_title() {
    let tab = Tab::new(url("https://example.com"));
    assert_eq!(tab.title, "https://example.com/");
}

#[test]
fn push_navigation_clears_forward_stack() {
    let mut tab = Tab::new(url("https://one.com"));
    tab.push_navigation(url("https://two.com"));
    tab.push_navigation(url("https://three.com"));
    tab.go_back();
    tab.push_navigation(url("https://four.com"));
    assert!(!tab.can_go_forward);
    assert!(tab.can_go_back);
}

#[test]
fn back_and_forward() {
    let mut tab = Tab::new(url("https://a.com"));
    tab.push_navigation(url("https://b.com"));
    tab.push_navigation(url("https://c.com"));

    assert_eq!(tab.url.as_str(), "https://c.com/");

    let back_url = tab.go_back().unwrap().clone();
    assert_eq!(back_url.as_str(), "https://b.com/");
    assert!(tab.can_go_forward);

    let fwd_url = tab.go_forward().unwrap().clone();
    assert_eq!(fwd_url.as_str(), "https://c.com/");
}

#[test]
fn go_back_on_empty_returns_none() {
    let mut tab = Tab::new(url("https://only.com"));
    assert!(tab.go_back().is_none());
}

#[test]
fn back_then_forward_restores_the_tab() {
    let mut tab = Tab::new(url("https://a.com"));
    tab.push_navigation(url("https://b.com"));
    tab.push_navigation(url("https://c.com"));
    tab.go_back();
    tab.go_forward();
    assert_eq!(tab.url.as_str(), "https://c.com/");
    assert_eq!(tab.history_back.len(), 2);
    assert!(tab.history_forward.is_empty());
    assert!(tab.can_go_back);
    assert!(!tab.can_go_forward);
}

#[test]
fn new_tab_is_unassigned_and_idle() {
    let tab = Tab::new(url("https://a.com"));
    assert_eq!(tab.id, TabId::unassigned());
    assert_eq!(tab.id.as_u64(), 0);
    assert!(!tab.loading && !tab.pinned && !tab.can_go_back && !tab.can_go_forward);
}

#[test]
fn tab_id_display_string() {
    let mut counter: u64 = 42;
    let id = TabId::next(&mut counter);
    assert_eq!(id.to_display_string(), "tab-42");
    assert_eq!(counter, 43);
}

#[test]
fn toggle_pin_flips() {
    let mut tab = Tab::new(url("https://a.com"));
    tab.toggle_pin();
    assert!(tab.pinned);
    tab.toggle_pin();
    assert!(!tab.pinned);
}
