use namimado::browser::bookmark::{Bookmark, BookmarkManager};
use namimado::location::Url;

fn test_url(s: &str) -> Url {
    Url::parse(s).unwrap()
}

#[test]
fn add_and_remove() {
    let mut mgr = BookmarkManager::new();
    assert!(mgr.add(Bookmark::new("Example", test_url("https://example.com"))));
    assert_eq!(mgr.len(), 1);
    assert!(mgr.is_bookmarked(&test_url("https://example.com")));

    assert!(mgr.remove(&test_url("https://example.com")));
    assert!(mgr.is_empty());
}

#[test]
fn reject_duplicate() {
    let mut mgr = BookmarkManager::new();
    assert!(mgr.add(Bookmark::new("A", test_url("https://a.com"))));
    assert!(!mgr.add(Bookmark::new("A again", test_url("https://a.com"))));
    assert_eq!(mgr.len(), 1);
}

#[test]
fn toggle_bookmark() {
    let mut mgr = BookmarkManager::new();
    let url = test_url("https://example.com");

    assert!(mgr.toggle("Example", url.clone()));
    assert!(mgr.is_bookmarked(&url));

    assert!(!mgr.toggle("Example", url.clone()));
    assert!(!mgr.is_bookmarked(&url));
}

#[test]
fn folder_operations() {
    let mut mgr = BookmarkManager::new();
    mgr.add(Bookmark::new("News", test_url("https://news.ycombinator.com")).with_folder("Tech"));
    mgr.add(Bookmark::new("Root", test_url("https://root.com")));

    let tech = mgr.list(Some("Tech"));
    assert_eq!(tech.len(), 1);
    assert_eq!(tech[0].title, "News");

    let all = mgr.list(None);
    assert_eq!(all.len(), 2);

    let bar = mgr.bar_bookmarks();
    assert_eq!(bar.len(), 1);
    assert_eq!(bar[0].title, "Root");
}

#[test]
fn search_by_title_and_url() {
    let mut mgr = BookmarkManager::new();
    mgr.add(Bookmark::new("Rust Lang", test_url("https://rust-lang.org")));
    mgr.add(Bookmark::new("Go Lang", test_url("https://go.dev")));
    mgr.add(Bookmark::new("Example", test_url("https://example.com")).with_tags(vec!["rust".into()]));

    let results = mgr.search("rust");
    assert_eq!(results.len(), 2);
}

#[test]
fn move_to_folder() {
    let mut mgr = BookmarkManager::new();
    let url = test_url("https://example.com");
    mgr.add(Bookmark::new("Example", url.clone()));
    assert!(mgr.list(None)[0].folder.is_none());

    mgr.move_to_folder(&url, Some("Saved".into()));
    assert_eq!(mgr.list(Some("Saved"))[0].url.as_str(), "https://example.com/");
}

#[test]
fn remove_folder_moves_bookmarks_to_root() {
    let mut mgr = BookmarkManager::new();
    mgr.add(Bookmark::new("In folder", test_url("https://example.com")).with_folder("MyFolder"));
    mgr.remove_folder("MyFolder");

    assert!(mgr.folders().is_empty());
    assert!(mgr.list(None)[0].folder.is_none());
}

#[test]
fn nested_folder_is_named_by_last_segment() {
    let mut mgr = BookmarkManager::new();
    mgr.add(Bookmark::new("T", test_url("https://t.com")).with_folder("News/Tech"));
    assert_eq!(mgr.folders().len(), 2);
    assert_eq!(mgr.folders()[1].name, "Tech");
    assert_eq!(mgr.folders()[1].path, "News/Tech");
}

#[test]
fn create_folder_creates_parent_paths_once() {
    let mut mgr = BookmarkManager::new();
    mgr.create_folder("News/Tech");
    mgr.create_folder("News/Tech");
    assert_eq!(mgr.folders().len(), 2);
    assert_eq!(mgr.folders()[0].name, "News");
    assert_eq!(mgr.folders()[0].path, "News");
    assert_eq!(mgr.folders()[1].name, "Tech");
    assert_eq!(mgr.folders()[1].path, "News/Tech");
    assert!(mgr.is_empty());
}

#[test]
fn deep_folder_creates_every_parent() {
    let mut mgr = BookmarkManager::new();
    mgr.create_folder("News");
    mgr.create_folder("News/Tech/Rust");
    let paths: Vec<&str> = mgr.folders().iter().map(|f| f.path.as_str()).collect();
    assert_eq!(paths, vec!["News", "News/Tech", "News/Tech/Rust"]);
    assert_eq!(mgr.folders()[2].name, "Rust");
}

#[test]
fn move_to_nested_folder_knows_it_once() {
    let mut mgr = BookmarkManager::new();
    let url = test_url("https://example.com");
    mgr.add(Bookmark::new("Example", url.clone()));
    mgr.move_to_folder(&url, Some("A/B".to_string()));
    mgr.move_to_folder(&url, Some("A/B".to_string()));
    assert_eq!(mgr.folders().iter().filter(|f| f.path == "A/B").count(), 1);
    assert_eq!(mgr.folders().iter().filter(|f| f.path == "A").count(), 1);
    assert_eq!(mgr.list(Some("A/B")).len(), 1);
    assert_eq!(mgr.len(), 1);
}

#[test]
fn create_folder_is_idempotent() {
    let mut mgr = BookmarkManager::new();
    mgr.create_folder("Reading");
    mgr.create_folder("Reading");
    assert_eq!(mgr.folders().len(), 1);
    assert_eq!(mgr.folders()[0].name, "Reading");
}

#[test]
fn remove_missing_url_is_false() {
    let mut mgr = BookmarkManager::new();
    assert!(!mgr.remove(&test_url("https://nowhere.com")));
}

#[test]
fn toggle_twice_restores_the_set() {
    let mut mgr = BookmarkManager::new();
    mgr.add(Bookmark::new("Keep", test_url("https://keep.com")));
    let url = test_url("https://x.com");
    mgr.toggle("X", url.clone());
    mgr.toggle("X", url.clone());
    assert_eq!(mgr.len(), 1);
    assert_eq!(mgr.bookmarks()[0].title, "Keep");
}

#[test]
fn new_at_keeps_the_time() {
    let b = Bookmark::new_at("A", test_url("https://a.com"), 99);
    assert_eq!(b.created_at, 99);
    assert!(b.folder.is_none());
    assert!(b.tags.is_empty());
}

#[test]
fn search_is_case_insensitive_on_url() {
    let mut mgr = BookmarkManager::new();
    mgr.add(Bookmark::new("Site", test_url("https://Example.COM/Path")));
    assert_eq!(mgr.search("example.com/path").len(), 1);
    assert_eq!(mgr.search("EXAMPLE").len(), 1);
    assert!(mgr.search("nothing").is_empty());
}

#[test]
fn empty_search_returns_every_bookmark() {
    let mut mgr = BookmarkManager::new();
    mgr.add(Bookmark::new("One", test_url("https://one.com")));
    mgr.add(Bookmark::new("Two", test_url("https://two.com")));
    let results = mgr.search("");
    assert_eq!(results.len(), 2);
    assert_eq!(results[0].title, "One");
}

#[test]
fn toggle_twice_from_bookmarked_keeps_it_bookmarked() {
    let mut mgr = BookmarkManager::new();
    let url = test_url("https://example.com");
    mgr.add(Bookmark::new("Example", url.clone()));
    mgr.add(Bookmark::new("Other", test_url("https://other.com")));
    assert!(!mgr.toggle("Example", url.clone()));
    assert_eq!(mgr.len(), 1);
    assert!(!mgr.is_bookmarked(&url));
    assert!(mgr.toggle("Example", url.clone()));
    assert_eq!(mgr.len(), 2);
    assert!(mgr.is_bookmarked(&url));
}
