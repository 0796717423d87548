use namimado::api::{AddBookmarkRequest, ApiError, BookmarkInfo, HistoryInfo, PipResponse, RulesInventory};
use namimado::browser::bookmark::Bookmark;
use namimado::browser::history::HistoryManager;
use namimado::location::Url;

#[test]
fn api_error_with_detail() {
    let e = ApiError::new("bad_url").with_detail("scheme missing");
    assert_eq!(e.error, "bad_url");
    assert_eq!(e.detail.as_deref(), Some("scheme missing"));
    let plain = ApiError::new("oops");
    assert!(plain.detail.is_none());
}

#[test]
fn history_info_from_entry() {
    let mut hist = HistoryManager::new();
    hist.record_visit_at("Rust", Url::parse("https://rust-lang.org").unwrap(), 1234);
    let info = HistoryInfo::from_entry(&hist.entries()[0]);
    assert_eq!(info.title, "Rust");
    assert_eq!(info.url, "https://rust-lang.org/");
    assert_eq!(info.visited_at, 1234);
    assert_eq!(info.visit_count, 1);
}

#[test]
fn bookmark_info_from_bookmark() {
    let b = Bookmark::new_at("Docs", Url::parse("https://docs.rs").unwrap(), 77)
        .with_folder("Dev")
        .with_tags(vec!["rust".into(), "docs".into()]);
    let info = BookmarkInfo::from_bookmark(&b);
    assert_eq!(info.title, "Docs");
    assert_eq!(info.url, "https://docs.rs/");
    assert_eq!(info.folder.as_deref(), Some("Dev"));
    assert_eq!(info.tags, vec!["rust".to_string(), "docs".to_string()]);
    assert_eq!(info.added_at, 77);
}

#[test]
fn defaults_are_empty() {
    let r = RulesInventory::default();
    assert!(r.normalize_rules.is_empty() && r.states.is_empty() && r.network_throttles.is_empty());
    let p = PipResponse::default();
    assert!(p.host.is_empty() && p.name.is_none() && p.selectors.is_empty());
    let a = AddBookmarkRequest::default();
    assert!(a.url.is_empty() && a.title.is_none() && a.tags.is_empty());
}
