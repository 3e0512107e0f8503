use fs_browser::bookmark::InMemoryBookmarkStore;
use fs_browser::controller::{BrowserController, NavigationDirection};

fn ctrl() -> BrowserController<InMemoryBookmarkStore> {
    BrowserController::new(InMemoryBookmarkStore::new())
}

#[test]
fn open_url_updates_model() {
    let mut c = ctrl();
    c.open_url("https://freesynergy.net");
    let snap = c.snapshot();
    assert_eq!(snap.current_url.as_deref(), Some("https://freesynergy.net"));
}

#[test]
fn back_returns_none_when_empty() {
    let mut c = ctrl();
    assert!(c.navigate_back().is_none());
}

#[test]
fn back_after_two_navigations() {
    let mut c = ctrl();
    c.open_url("https://a.com");
    c.open_url("https://b.com");
    let prev = c.navigate_back();
    assert!(prev.is_some());
}

#[test]
fn reload_reopens_current_url() {
    let mut c = ctrl();
    c.open_url("https://example.com");
    c.reload();
    assert_eq!(
        c.snapshot().current_url.as_deref(),
        Some("https://example.com")
    );
}

#[test]
fn add_and_list_bookmarks() {
    let mut c = ctrl();
    let b = c.add_bookmark("FS", "https://freesynergy.net").unwrap();
    assert_eq!(b.url, "https://freesynergy.net");
    let list = c.list_bookmarks();
    assert_eq!(list.len(), 1);
}

#[test]
fn remove_bookmark() {
    let mut c = ctrl();
    let b = c.add_bookmark("FS", "https://freesynergy.net").unwrap();
    assert!(c.remove_bookmark(&b.id));
    assert!(c.list_bookmarks().is_empty());
}

// ── Further cases ────────────────────────────────────────────────────────────

#[test]
fn back_and_forward_move_through_history() {
    let mut c = ctrl();
    c.open_url("https://a.com");
    c.open_url("https://b.com");
    assert_eq!(c.navigate_back().as_deref(), Some("https://a.com"));
    assert_eq!(c.snapshot().current_url.as_deref(), Some("https://a.com"));
    assert!(c.navigate_back().is_none());
    assert_eq!(c.navigate_forward().as_deref(), Some("https://b.com"));
    assert!(c.navigate_forward().is_none());
    assert_eq!(c.snapshot().current_url.as_deref(), Some("https://b.com"));
}

#[test]
fn open_after_back_drops_forward_entries() {
    let mut c = ctrl();
    c.open_url("https://a.com");
    c.open_url("https://b.com");
    let _ = c.navigate_back();
    c.open_url("https://c.com");
    assert_eq!(c.snapshot().history.len(), 2);
    assert!(c.navigate_forward().is_none());
    assert_eq!(c.navigate_back().as_deref(), Some("https://a.com"));
}

#[test]
fn relative_address_is_not_recorded_in_history() {
    let mut c = ctrl();
    c.open_url("example.com");
    assert_eq!(c.snapshot().current_url.as_deref(), Some("example.com"));
    assert!(c.snapshot().history.is_empty());
}

#[test]
fn history_lists_one_entry_per_visit() {
    let mut c = ctrl();
    assert!(c.history().is_empty());
    c.open_url("https://a.com");
    c.open_url("https://b.com");
    let h = c.history();
    assert_eq!(h.len(), 2);
    assert_eq!(h[0].url, "https://a.com");
    assert_eq!(h[1].url, "https://b.com");
    assert!(h[0].visited_at.ends_with("+00:00"));
    assert_eq!(h[0].visited_at, h[1].visited_at);
}

#[test]
fn navigate_directions() {
    assert_eq!(NavigationDirection::from_name("back"), NavigationDirection::Back);
    assert_eq!(NavigationDirection::from_name("forward"), NavigationDirection::Forward);
    assert_eq!(NavigationDirection::from_name("reload"), NavigationDirection::Reload);
    assert_eq!(NavigationDirection::from_name("sideways"), NavigationDirection::Reload);
    let mut c = ctrl();
    c.open_url("https://a.com");
    assert_eq!(c.navigate(NavigationDirection::Reload).as_deref(), Some("https://a.com"));
    // The reload was a second load of the same page, so there is a way back.
    assert_eq!(c.navigate(NavigationDirection::Back).as_deref(), Some("https://a.com"));
    assert!(c.navigate(NavigationDirection::Back).is_none());
}

#[test]
fn reload_without_page_changes_nothing() {
    let mut c = ctrl();
    c.reload();
    assert!(c.snapshot().current_url.is_none());
    assert!(c.snapshot().history.is_empty());
}

#[test]
fn navigate_back_without_history_changes_nothing() {
    let mut c = ctrl();
    assert!(c.navigate_back().is_none());
    assert!(c.navigate_forward().is_none());
    assert_eq!(c.snapshot().current_url, None);
    c.open_url("https://a.com");
    assert!(c.navigate_back().is_none());
    assert_eq!(c.snapshot().current_url.as_deref(), Some("https://a.com"));
    c.open_url("https://b.com");
    assert_eq!(c.navigate_back().as_deref(), Some("https://a.com"));
    assert_eq!(c.snapshot().current_url.as_deref(), Some("https://a.com"));
    assert_eq!(c.navigate_forward().as_deref(), Some("https://b.com"));
    assert!(c.navigate_forward().is_none());
    assert_eq!(c.snapshot().current_url.as_deref(), Some("https://b.com"));
}
