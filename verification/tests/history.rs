use namimado::browser::history::HistoryManager;
use namimado::location::Url;

fn test_url(s: &str) -> Url {
    Url::parse(s).unwrap()
}

#[test]
fn record_and_search() {
    let mut hist = HistoryManager::new();
    hist.record_visit("Rust", test_url("https://rust-lang.org"));
    hist.record_visit("Go", test_url("https://go.dev"));

    let results = hist.search("rust");
    assert_eq!(results.len(), 1);
    assert_eq!(results[0].title, "Rust");
}

#[test]
fn duplicate_visit_increments_count() {
    let mut hist = HistoryManager::new();
    let url = test_url("https://example.com");
    hist.record_visit("Example", url.clone());
    hist.record_visit("Example Updated", url);

    assert_eq!(hist.len(), 1);
    assert_eq!(hist.entries()[0].visit_count, 2);
    assert_eq!(hist.entries()[0].title, "Example Updated");
}

#[test]
fn recent_entries() {
    let mut hist = HistoryManager::new();
    hist.record_visit("A", test_url("https://a.com"));
    hist.record_visit("B", test_url("https://b.com"));
    hist.record_visit("C", test_url("https://c.com"));

    let recent = hist.recent(2);
    assert_eq!(recent.len(), 2);
    assert_eq!(recent[0].title, "C");
    assert_eq!(recent[1].title, "B");
}

#[test]
fn most_visited() {
    let mut hist = HistoryManager::new();
    let url_a = test_url("https://a.com");
    hist.record_visit("A", url_a.clone());
    hist.record_visit("A", url_a.clone());
    hist.record_visit("A", url_a);
    hist.record_visit("B", test_url("https://b.com"));

    let top = hist.most_visited(1);
    assert_eq!(top[0].title, "A");
    assert_eq!(top[0].visit_count, 3);
}

#[test]
fn clear_all() {
    let mut hist = HistoryManager::new();
    hist.record_visit("A", test_url("https://a.com"));
    hist.clear();
    assert!(hist.is_empty());
}

#[test]
fn remove_url() {
    let mut hist = HistoryManager::new();
    let url = test_url("https://example.com");
    hist.record_visit("Example", url.clone());
    hist.record_visit("Other", test_url("https://other.com"));

    hist.remove_url(&url);
    assert_eq!(hist.len(), 1);
    assert_eq!(hist.entries()[0].title, "Other");
}

#[test]
fn autocomplete_sorted_by_visit_count() {
    let mut hist = HistoryManager::new();
    let url_a = test_url("https://rust-lang.org");
    let url_b = test_url("https://rust-analyzer.github.io");
    hist.record_visit("Rust Lang", url_a.clone());
    hist.record_visit("Rust Analyzer", url_b.clone());
    hist.record_visit("Rust Analyzer", url_b.clone());
    hist.record_visit("Rust Analyzer", url_b);

    let suggestions = hist.autocomplete("rust");
    assert_eq!(suggestions.len(), 2);
    assert_eq!(suggestions[0].title, "Rust Analyzer");
}

#[test]
fn record_visit_at_keeps_the_timestamp() {
    let mut hist = HistoryManager::new();
    hist.record_visit_at("A", test_url("https://a.com"), 1_700_000_000);
    assert_eq!(hist.entries()[0].timestamp, 1_700_000_000);
    assert_eq!(hist.entries()[0].visit_count, 1);
}

#[test]
fn clear_before_drops_older_entries() {
    let mut hist = HistoryManager::new();
    hist.record_visit_at("Old", test_url("https://old.com"), 100);
    hist.record_visit_at("New", test_url("https://new.com"), 200);
    hist.clear_before(150);
    assert_eq!(hist.len(), 1);
    assert_eq!(hist.entries()[0].title, "New");
}

#[test]
fn entries_for_date_matches_the_utc_day() {
    let mut hist = HistoryManager::new();
    hist.record_visit_at("Day", test_url("https://day.com"), 1_700_000_000); // 2023-11-14
    hist.record_visit_at("Other", test_url("https://other.com"), 0); // 1970-01-01
    let on_day = hist.entries_for_date("2023-11-14");
    assert_eq!(on_day.len(), 1);
    assert_eq!(on_day[0].title, "Day");
    assert!(hist.entries_for_date("2000-01-01").is_empty());
}

#[test]
fn most_visited_is_stable_for_ties() {
    let mut hist = HistoryManager::new();
    hist.record_visit_at("A", test_url("https://a.com"), 1);
    hist.record_visit_at("B", test_url("https://b.com"), 2);
    // Most recent first: B, A; equal counts keep that order.
    let top = hist.most_visited(2);
    assert_eq!(top[0].title, "B");
    assert_eq!(top[1].title, "A");
}

#[test]
fn recent_more_than_available() {
    let mut hist = HistoryManager::new();
    hist.record_visit("A", test_url("https://a.com"));
    assert_eq!(hist.recent(5).len(), 1);
}

#[test]
fn can_record_visit_on_fresh_history() {
    let hist = HistoryManager::new();
    assert!(hist.can_record_visit(&test_url("https://a.com")));
}

#[test]
fn empty_search_returns_every_entry() {
    let mut hist = HistoryManager::new();
    hist.record_visit("A", test_url("https://a.com"));
    hist.record_visit("B", test_url("https://b.com"));
    let results = hist.search("");
    assert_eq!(results.len(), 2);
    assert_eq!(results[0].title, "B");
    assert_eq!(results[1].title, "A");
}

#[test]
fn search_ignores_ascii_case() {
    let mut hist = HistoryManager::new();
    hist.record_visit("Rust Book", test_url("https://doc.rust-lang.org/book"));
    hist.record_visit("Go", test_url("https://go.dev"));
    let results = hist.search("RUST BOOK");
    assert_eq!(results.len(), 1);
    assert_eq!(results[0].title, "Rust Book");
}

#[test]
fn most_visited_keeps_history_order_among_equal_counts() {
    let mut hist = HistoryManager::new();
    hist.record_visit("A", test_url("https://a.com"));
    hist.record_visit("B", test_url("https://b.com"));
    hist.record_visit("C", test_url("https://c.com"));
    hist.record_visit("B", test_url("https://b.com"));
    let top = hist.most_visited(2);
    assert_eq!(top.len(), 2);
    assert_eq!(top[0].title, "B");
    assert_eq!(top[1].title, "C");
}
