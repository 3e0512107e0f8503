use fs_browser::bookmarks::BookmarkManager;

#[test]
fn add_returns_bookmark_with_correct_fields() {
    let mut ids = BookmarkManager::new();
    let bm = ids.add(&[], "Example", "https://example.com").unwrap();
    assert_eq!(bm.title, "Example");
    assert_eq!(bm.url, "https://example.com");
    assert!(!bm.created_at.is_empty());
}

#[test]
fn remove_deletes_by_id() {
    let mut ids = BookmarkManager::new();
    let bm = ids.add(&[], "A", "https://a.com").unwrap();
    let id = bm.id;
    let b = ids.add(&[], "B", "https://b.com").unwrap();
    let mut list = vec![bm, b];
    BookmarkManager::remove(&mut list, id);
    assert_eq!(list.len(), 1);
    assert_eq!(list[0].url, "https://b.com");
}

#[test]
fn remove_unknown_id_is_noop() {
    let mut ids = BookmarkManager::new();
    let bm = ids.add(&[], "A", "https://a.com").unwrap();
    let mut list = vec![bm];
    BookmarkManager::remove(&mut list, 999_999);
    assert_eq!(list.len(), 1);
}

#[test]
fn record_visit_returns_entry_with_correct_fields() {
    let mut ids = BookmarkManager::new();
    let entry = ids.record_visit("Example", "https://example.com");
    assert_eq!(entry.title, "Example");
    assert_eq!(entry.url, "https://example.com");
    assert!(!entry.visited_at.is_empty());
}

// ── Further cases ────────────────────────────────────────────────────────────

#[test]
fn ids_start_at_one_and_increase() {
    let mut ids = BookmarkManager::new();
    assert_eq!(ids.next_id(), 1);
    assert_eq!(ids.next_id(), 2);
    let e = ids.record_visit("t", "u");
    assert_eq!(e.id, 3);
}

#[test]
fn add_is_noop_for_bookmarked_url() {
    let mut ids = BookmarkManager::new();
    let a = ids.add(&[], "A", "https://a.com").unwrap();
    let list = vec![a];
    assert!(ids.add(&list, "Again", "https://a.com").is_none());
    // No id was used by the refused add.
    assert_eq!(ids.next_id(), 2);
}

#[test]
fn add_at_uses_given_time() {
    let mut ids = BookmarkManager::new();
    let b = ids.add_at(&[], "A", "https://a.com", "2024-01-01T00:00:00+00:00").unwrap();
    assert_eq!(b.created_at, "2024-01-01T00:00:00+00:00");
    assert_eq!(b.id, 1);
    let v = ids.record_visit_at("T", "https://t.test", "2024-01-02T00:00:00+00:00");
    assert_eq!((v.id, v.visited_at.as_str()), (2, "2024-01-02T00:00:00+00:00"));
}

#[test]
fn remove_drops_every_bookmark_with_the_id() {
    let mut ids = BookmarkManager::new();
    let a = ids.add(&[], "A", "https://a.com").unwrap();
    let mut twin = a.clone();
    twin.url = "https://twin.com".into();
    let b = ids.add(&[], "B", "https://b.com").unwrap();
    let mut list = vec![a.clone(), b, twin];
    BookmarkManager::remove(&mut list, a.id);
    assert_eq!(list.len(), 1);
    assert_eq!(list[0].title, "B");
}
