use namimado::browser::navigation::{go_back, go_forward, navigate, normalize_url, reload, stop};
use namimado::browser::tab::Tab;
use namimado::location::Url;

#[test]
fn normalize_full_url() {
    let url = normalize_url("https://example.com/page").unwrap();
    assert_eq!(url.as_str(), "https://example.com/page");
}

#[test]
fn normalize_bare_domain() {
    let url = normalize_url("example.com").unwrap();
    assert_eq!(url.scheme(), "https");
    assert_eq!(url.host_str(), Some("example.com"));
}

#[test]
fn normalize_search_query() {
    let url = normalize_url("rust programming").unwrap();
    assert!(url.as_str().contains("google.com/search"));
    assert!(url.as_str().contains("rust"));
}

#[test]
fn normalize_about_blank() {
    let url = normalize_url("about:blank").unwrap();
    assert_eq!(url.as_str(), "about:blank");
}

#[test]
fn navigate_pushes_history() {
    let mut tab = Tab::new(Url::parse("https://one.com").unwrap());
    navigate(&mut tab, Url::parse("https://two.com").unwrap());
    assert_eq!(tab.url.as_str(), "https://two.com/");
    assert!(tab.can_go_back);
    assert!(tab.loading);
}

#[test]
fn back_forward_round_trip() {
    let mut tab = Tab::new(Url::parse("https://one.com").unwrap());
    navigate(&mut tab, Url::parse("https://two.com").unwrap());

    let back = go_back(&mut tab).unwrap();
    assert_eq!(back.as_str(), "https://one.com/");

    let fwd = go_forward(&mut tab).unwrap();
    assert_eq!(fwd.as_str(), "https://two.com/");
}

#[test]
fn normalize_trims_and_keeps_http() {
    let url = normalize_url("  http://example.com/a  ").unwrap();
    assert_eq!(url.as_str(), "http://example.com/a");
}

#[test]
fn normalize_other_scheme_becomes_search() {
    let url = normalize_url("mailto:someone").unwrap();
    assert_eq!(url.as_str(), "https://www.google.com/search?q=mailto%3Asomeone");
}

#[test]
fn normalize_search_query_is_encoded_exactly() {
    let url = normalize_url("rust programming").unwrap();
    assert_eq!(url.as_str(), "https://www.google.com/search?q=rust%20programming");
}

#[test]
fn reload_and_stop_toggle_loading() {
    let mut tab = Tab::new(Url::parse("https://one.com").unwrap());
    reload(&mut tab);
    assert!(tab.loading);
    stop(&mut tab);
    assert!(!tab.loading);
    assert_eq!(tab.url.as_str(), "https://one.com/");
}

#[test]
fn go_forward_without_forward_history_is_none() {
    let mut tab = Tab::new(Url::parse("https://one.com").unwrap());
    assert!(go_forward(&mut tab).is_none());
    assert_eq!(tab.url.as_str(), "https://one.com/");
}

#[test]
fn headless_target_keeps_a_full_url() {
    let u = namimado::browser::navigation::headless_target("https://example.com/a").unwrap();
    assert_eq!(u.as_str(), "https://example.com/a");
    let u = namimado::browser::navigation::headless_target("about:blank").unwrap();
    assert_eq!(u.as_str(), "about:blank");
}

#[test]
fn headless_target_adds_https_to_a_bare_host() {
    let u = namimado::browser::navigation::headless_target("example.com").unwrap();
    assert_eq!(u.as_str(), "https://example.com/");
}

#[test]
fn headless_target_refuses_what_never_parses() {
    assert!(namimado::browser::navigation::headless_target("").is_err());
}
