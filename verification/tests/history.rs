use fs_browser::app_model::HistoryEntry;
use fs_browser::bookmarks::BookmarkManager;
use fs_browser::history::{clear, recent};

fn entry(ids: &mut BookmarkManager, url: &str) -> HistoryEntry {
    ids.record_visit(url, url)
}

#[test]
fn clear_empties_history() {
    let mut ids = BookmarkManager::new();
    let mut h = vec![entry(&mut ids, "https://a.com"), entry(&mut ids, "https://b.com")];
    clear(&mut h);
    assert!(h.is_empty());
}

#[test]
fn recent_returns_most_recent_first() {
    let mut ids = BookmarkManager::new();
    let h = vec![entry(&mut ids, "first"), entry(&mut ids, "second"), entry(&mut ids, "third")];
    let r = recent(&h, 10);
    assert_eq!(r[0].url, "third");
    assert_eq!(r[1].url, "second");
    assert_eq!(r[2].url, "first");
}

#[test]
fn recent_respects_limit() {
    let mut ids = BookmarkManager::new();
    let h = vec![entry(&mut ids, "a"), entry(&mut ids, "b"), entry(&mut ids, "c"), entry(&mut ids, "d")];
    let r = recent(&h, 2);
    assert_eq!(r.len(), 2);
    assert_eq!(r[0].url, "d");
    assert_eq!(r[1].url, "c");
}

#[test]
fn recent_on_empty_returns_empty() {
    let h: Vec<HistoryEntry> = vec![];
    assert!(recent(&h, 10).is_empty());
}

#[test]
fn recent_with_zero_limit_is_empty() {
    let mut ids = BookmarkManager::new();
    let h = vec![entry(&mut ids, "a")];
    assert!(recent(&h, 0).is_empty());
}
