use fs_browser::navigation::{is_valid_url, NavigationHistory};

#[test]
fn valid_urls_have_a_scheme() {
    assert!(is_valid_url("https://a.com"));
    assert!(is_valid_url("about:blank"));
    assert!(is_valid_url("git+ssh://host/x"));
    assert!(!is_valid_url("example.com"));
    assert!(!is_valid_url(""));
    assert!(!is_valid_url(":x"));
    assert!(!is_valid_url("1ab:x"));
    assert!(!is_valid_url("a b:x"));
    assert!(is_valid_url("abc:"));
}

#[test]
fn history_push_back_forward() {
    let mut h = NavigationHistory::new();
    assert!(h.is_empty());
    assert!(h.back().is_none());
    h.push("a");
    h.push("b");
    h.push("c");
    assert_eq!(h.len(), 3);
    assert_eq!(h.back().as_deref(), Some("b"));
    assert_eq!(h.back().as_deref(), Some("a"));
    assert!(!h.can_go_back());
    assert!(h.can_go_forward());
    assert_eq!(h.forward().as_deref(), Some("b"));
    h.push("d");
    assert_eq!(h.len(), 3);
    assert!(!h.can_go_forward());
    assert_eq!(h.current().as_deref(), Some("d"));
    assert_eq!(h.back().as_deref(), Some("b"));
    assert_eq!(h.forward().as_deref(), Some("d"));
}
