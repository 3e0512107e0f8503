use fs_browser::bookmark::{Bookmark, BookmarkStore, InMemoryBookmarkStore};

fn is_uuid_v4(s: &str) -> bool {
    let b = s.as_bytes();
    b.len() == 36
        && s.chars().enumerate().all(|(i, c)| match i {
            8 | 13 | 18 | 23 => c == '-',
            _ => c.is_ascii_digit() || ('a'..='f').contains(&c),
        })
        && b[14] == b'4'
        && matches!(b[19], b'8' | b'9' | b'a' | b'b')
}

#[test]
fn add_and_list() {
    let mut s = InMemoryBookmarkStore::new();
    let b = s.add("FreeSynergy", "https://freesynergy.net").unwrap();
    assert_eq!(b.title, "FreeSynergy");
    assert_eq!(b.url, "https://freesynergy.net");

    let list = s.list();
    assert_eq!(list.len(), 1);
    assert_eq!(list[0].id, b.id);
}

#[test]
fn remove_existing() {
    let mut s = InMemoryBookmarkStore::new();
    let b = s.add("Test", "https://example.com").unwrap();
    assert!(s.remove(&b.id));
    assert!(s.list().is_empty());
}

#[test]
fn remove_nonexistent_returns_false() {
    let mut s = InMemoryBookmarkStore::new();
    assert!(!s.remove("no-such-id"));
}

#[test]
fn find_by_url_returns_match() {
    let mut s = InMemoryBookmarkStore::new();
    s.add("A", "https://a.com");
    s.add("B", "https://b.com");
    let found = s.find_by_url("https://b.com");
    assert!(found.is_some());
    assert_eq!(found.unwrap().title, "B");
}

#[test]
fn find_by_url_returns_none_for_missing() {
    let s = InMemoryBookmarkStore::new();
    assert!(s.find_by_url("https://nope.com").is_none());
}

#[test]
fn multiple_bookmarks_order_preserved() {
    let mut s = InMemoryBookmarkStore::new();
    s.add("First", "https://first.com");
    s.add("Second", "https://second.com");
    s.add("Third", "https://third.com");
    let list = s.list();
    assert_eq!(list.len(), 3);
    assert_eq!(list[0].title, "First");
    assert_eq!(list[2].title, "Third");
}

// ── Further cases ────────────────────────────────────────────────────────────

#[test]
fn new_bookmark_has_uuid_and_timestamp() {
    let b = Bookmark::new("T", "https://t.test").unwrap();
    assert!(is_uuid_v4(&b.id), "id={}", b.id);
    assert!(b.created_at.len() >= 25 && b.created_at.ends_with("+00:00"), "{}", b.created_at);
}

#[test]
fn bookmarks_get_distinct_ids() {
    let a = Bookmark::new("A", "https://a.test").unwrap();
    let b = Bookmark::new("A", "https://a.test").unwrap();
    assert_ne!(a.id, b.id);
}

#[test]
fn find_by_url_returns_first_match() {
    let mut s = InMemoryBookmarkStore::new();
    s.add("One", "https://same.test");
    s.add("Two", "https://same.test");
    assert_eq!(s.find_by_url("https://same.test").unwrap().title, "One");
}

#[test]
fn remove_keeps_other_bookmarks_in_order() {
    let mut s = InMemoryBookmarkStore::default();
    let a = s.add("A", "https://a.test").unwrap();
    let b = s.add("B", "https://b.test").unwrap();
    let c = s.add("C", "https://c.test").unwrap();
    assert!(s.remove(&b.id));
    let ids: Vec<String> = s.list().into_iter().map(|x| x.id).collect();
    assert_eq!(ids, vec![a.id, c.id]);
    assert!(!s.remove(&b.id));
}

#[test]
fn added_bookmark_is_found_by_url() {
    let mut s = InMemoryBookmarkStore::new();
    let b = s.add("Found", "https://found.test").unwrap();
    assert_eq!(s.find_by_url("https://found.test").unwrap().id, b.id);
}
