use namimado::browser::tabs::TabManager;
use namimado::location::Url;

fn url(s: &str) -> Url {
    Url::parse(s).unwrap()
}

#[test]
fn add_and_active() {
    let mut mgr = TabManager::new();
    assert!(mgr.is_empty());

    let id1 = mgr.add_tab(url("https://a.com"));
    assert_eq!(mgr.len(), 1);
    assert_eq!(mgr.active_tab().unwrap().id, id1);

    let id2 = mgr.add_tab(url("https://b.com"));
    assert_eq!(mgr.len(), 2);
    assert_eq!(mgr.active_tab().unwrap().id, id2);
}

#[test]
fn close_active_selects_neighbor() {
    let mut mgr = TabManager::new();
    let _id1 = mgr.add_tab(url("https://a.com"));
    let id2 = mgr.add_tab(url("https://b.com"));
    let id3 = mgr.add_tab(url("https://c.com"));

    mgr.close_tab(id3);
    assert_eq!(mgr.active_tab().unwrap().id, id2);

    mgr.close_tab(id2);
    assert_eq!(mgr.active_tab().unwrap().url.as_str(), "https://a.com/");
}

#[test]
fn switch_to_by_id() {
    let mut mgr = TabManager::new();
    let id1 = mgr.add_tab(url("https://a.com"));
    let _id2 = mgr.add_tab(url("https://b.com"));

    assert!(mgr.switch_to(id1));
    assert_eq!(mgr.active_tab().unwrap().id, id1);
}

#[test]
fn next_prev_wraps() {
    let mut mgr = TabManager::new();
    let id1 = mgr.add_tab(url("https://a.com"));
    let _id2 = mgr.add_tab(url("https://b.com"));

    mgr.next_tab();
    assert_eq!(mgr.active_tab().unwrap().id, id1);

    mgr.prev_tab();
    assert_eq!(mgr.active_index(), 1);
}

#[test]
fn reorder_updates_active() {
    let mut mgr = TabManager::new();
    let id1 = mgr.add_tab(url("https://a.com"));
    let _id2 = mgr.add_tab(url("https://b.com"));
    let _id3 = mgr.add_tab(url("https://c.com"));

    mgr.switch_to(id1);
    mgr.reorder(0, 2);
    assert_eq!(mgr.active_tab().unwrap().id, id1);
    assert_eq!(mgr.active_index(), 2);
}

#[test]
fn close_remembers_for_restore() {
    let mut mgr = TabManager::new();
    let _id1 = mgr.add_tab(url("https://a.com"));
    let id2 = mgr.add_tab(url("https://b.com"));

    mgr.close_tab(id2);
    assert_eq!(mgr.closed_tabs().len(), 1);
    assert_eq!(mgr.closed_tabs()[0].url.as_str(), "https://b.com/");
}

#[test]
fn restore_closed_tab() {
    let mut mgr = TabManager::new();
    let _id1 = mgr.add_tab(url("https://a.com"));
    let id2 = mgr.add_tab(url("https://b.com"));

    mgr.close_tab(id2);
    let restored_id = mgr.restore_closed_tab().unwrap();
    assert_eq!(mgr.len(), 2);
    assert_eq!(mgr.active_tab().unwrap().id, restored_id);
    assert_eq!(mgr.active_tab().unwrap().url.as_str(), "https://b.com/");
}

#[test]
fn restore_returns_none_when_empty() {
    let mut mgr = TabManager::new();
    assert!(mgr.restore_closed_tab().is_none());
}

#[test]
fn add_tab_after_active() {
    let mut mgr = TabManager::new();
    let _id1 = mgr.add_tab(url("https://a.com"));
    let _id2 = mgr.add_tab(url("https://b.com"));
    mgr.switch_to_index(0);

    let id3 = mgr.add_tab_after_active(url("https://c.com"));
    assert_eq!(mgr.active_index(), 1);
    assert_eq!(mgr.active_tab().unwrap().id, id3);
    let urls: Vec<&str> = mgr.iter().map(|t| t.url.as_str()).collect();
    assert_eq!(urls, vec!["https://a.com/", "https://c.com/", "https://b.com/"]);
}

#[test]
fn close_active_respects_pinned() {
    let mut mgr = TabManager::new();
    let id1 = mgr.add_tab(url("https://a.com"));
    mgr.get_tab_mut(id1).unwrap().pinned = true;
    mgr.switch_to(id1);

    assert!(!mgr.close_active_tab());
    assert_eq!(mgr.len(), 1);
}

#[test]
fn duplicate_active() {
    let mut mgr = TabManager::new();
    let _id1 = mgr.add_tab(url("https://a.com"));
    let _id2 = mgr.add_tab(url("https://b.com"));
    mgr.switch_to_index(0);

    let dup_id = mgr.duplicate_active_tab().unwrap();
    assert_eq!(mgr.len(), 3);
    assert_eq!(mgr.active_tab().unwrap().id, dup_id);
    assert_eq!(mgr.active_tab().unwrap().url.as_str(), "https://a.com/");
}

#[test]
fn pin_moves_to_front() {
    let mut mgr = TabManager::new();
    let _id1 = mgr.add_tab(url("https://a.com"));
    let _id2 = mgr.add_tab(url("https://b.com"));
    let id3 = mgr.add_tab(url("https://c.com"));

    mgr.toggle_pin(id3);
    assert_eq!(mgr.iter().next().unwrap().url.as_str(), "https://c.com/");
    assert!(mgr.iter().next().unwrap().pinned);
    assert_eq!(mgr.pinned_count(), 1);
}

#[test]
fn reorder_keeps_the_active_tab() {
    let mut mgr = TabManager::new();
    let _a = mgr.add_tab(url("https://a.com"));
    let b = mgr.add_tab(url("https://b.com"));
    let _c = mgr.add_tab(url("https://c.com"));
    mgr.switch_to(b);
    mgr.reorder(2, 0);
    assert_eq!(mgr.active_tab().unwrap().id, b);
    assert_eq!(mgr.active_index(), 2);
    mgr.reorder(0, 2);
    assert_eq!(mgr.active_tab().unwrap().id, b);
    assert_eq!(mgr.active_index(), 1);
}

#[test]
fn restore_after_close_brings_the_url_back_at_its_place() {
    let mut mgr = TabManager::new();
    let _a = mgr.add_tab(url("https://a.com"));
    let b = mgr.add_tab(url("https://b.com"));
    let _c = mgr.add_tab(url("https://c.com"));
    mgr.close_tab(b);
    mgr.restore_closed_tab().unwrap();
    assert_eq!(mgr.active_index(), 1);
    let urls: Vec<&str> = mgr.iter().map(|t| t.url.as_str()).collect();
    assert_eq!(urls, vec!["https://a.com/", "https://b.com/", "https://c.com/"]);
    assert!(mgr.closed_tabs().is_empty());
}

#[test]
fn next_then_prev_returns_to_the_same_tab() {
    let mut mgr = TabManager::new();
    mgr.add_tab(url("https://a.com"));
    mgr.add_tab(url("https://b.com"));
    mgr.add_tab(url("https://c.com"));
    mgr.switch_to_index(1);
    mgr.next_tab();
    mgr.prev_tab();
    assert_eq!(mgr.active_index(), 1);
}

#[test]
fn closed_tabs_are_bounded() {
    let mut mgr = TabManager::new();
    for _ in 0..30 {
        let id = mgr.add_tab(url("https://a.com"));
        mgr.close_tab(id);
    }
    assert_eq!(mgr.closed_tabs().len(), 25);
}

#[test]
fn unpin_moves_after_pinned_tabs() {
    let mut mgr = TabManager::new();
    let a = mgr.add_tab(url("https://a.com"));
    let b = mgr.add_tab(url("https://b.com"));
    let _c = mgr.add_tab(url("https://c.com"));
    mgr.toggle_pin(b);
    mgr.toggle_pin(a);
    // Pinned: b, a; then c.
    let urls: Vec<&str> = mgr.iter().map(|t| t.url.as_str()).collect();
    assert_eq!(urls, vec!["https://b.com/", "https://a.com/", "https://c.com/"]);
    mgr.toggle_pin(b);
    let urls: Vec<&str> = mgr.iter().map(|t| t.url.as_str()).collect();
    assert_eq!(urls, vec!["https://a.com/", "https://b.com/", "https://c.com/"]);
    assert_eq!(mgr.pinned_count(), 1);
}

#[test]
fn closing_the_active_tab_forgets_its_id() {
    let mut mgr = TabManager::new();
    let a = mgr.add_tab(url("https://a.com"));
    let b = mgr.add_tab(url("https://b.com"));
    assert!(mgr.close_active_tab());
    assert_eq!(mgr.len(), 1);
    assert!(mgr.get_tab(b).is_none());
    assert!(mgr.get_tab(a).is_some());
}

#[test]
fn new_restored_and_duplicated_ids_are_fresh() {
    let mut mgr = TabManager::new();
    let a = mgr.add_tab(url("https://a.com"));
    let b = mgr.add_tab_after_active(url("https://b.com"));
    let c = mgr.duplicate_active_tab().unwrap();
    mgr.close_tab(a);
    let d = mgr.restore_closed_tab().unwrap();
    let ids = [a, b, c, d];
    for i in 0..ids.len() {
        for j in 0..ids.len() {
            if i != j {
                assert_ne!(ids[i], ids[j]);
            }
        }
    }
    assert_eq!(mgr.len(), 3);
    assert_eq!(mgr.active_tab().unwrap().id, d);
}

#[test]
fn pinned_tabs_stay_first_while_toggling() {
    let mut mgr = TabManager::new();
    let a = mgr.add_tab(url("https://a.com"));
    let _b = mgr.add_tab(url("https://b.com"));
    let c = mgr.add_tab(url("https://c.com"));
    let d = mgr.add_tab(url("https://d.com"));
    for (id, count) in [(c, 1), (a, 2), (d, 3), (a, 2), (c, 1)] {
        mgr.toggle_pin(id);
        assert_eq!(mgr.pinned_count(), count);
        let pins: Vec<bool> = mgr.iter().map(|t| t.pinned).collect();
        for (i, p) in pins.iter().enumerate() {
            assert_eq!(*p, i < count);
        }
        assert_eq!(mgr.len(), 4);
    }
}
