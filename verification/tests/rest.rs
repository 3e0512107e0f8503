use fs_browser::bookmark::InMemoryBookmarkStore;
use fs_browser::controller::BrowserController;
use fs_browser::rest::{navigate, removal_status, NavigateBody};

#[test]
fn rest_navigate_directions() {
    let mut c = BrowserController::new(InMemoryBookmarkStore::new());
    c.open_url("https://a.com");
    c.open_url("https://b.com");
    let r = navigate(&mut c, &NavigateBody { direction: "back".into() });
    assert!(r.ok);
    assert_eq!(r.current_url.as_deref(), Some("https://a.com"));
    let r = navigate(&mut c, &NavigateBody { direction: "forward".into() });
    assert_eq!(r.current_url.as_deref(), Some("https://b.com"));
    let r = navigate(&mut c, &NavigateBody { direction: "anything".into() });
    assert_eq!(r.current_url.as_deref(), Some("https://b.com"));
    let r = navigate(&mut c, &NavigateBody { direction: "forward".into() });
    assert!(r.ok);
    assert!(r.current_url.is_none());
}

#[test]
fn rest_removal_status() {
    assert_eq!(removal_status(true), 200);
    assert_eq!(removal_status(false), 404);
}
