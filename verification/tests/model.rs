use fs_browser::model::BrowserModel;

#[test]
fn new_model_is_empty() {
    let m = BrowserModel::new();
    assert!(m.current_url.is_none());
    assert!(m.current_title.is_none());
    assert!(!m.loading);
    assert!(m.history.is_empty());
}

#[test]
fn set_loading_updates_state() {
    let mut m = BrowserModel::new();
    m.set_loading("https://example.com");
    assert_eq!(m.current_url.as_deref(), Some("https://example.com"));
    assert!(m.loading);
}

#[test]
fn set_loaded_clears_spinner() {
    let mut m = BrowserModel::new();
    m.set_loading("https://example.com");
    m.set_loaded(Some("Example".into()));
    assert!(!m.loading);
    assert_eq!(m.current_title.as_deref(), Some("Example"));
}

#[test]
fn set_load_error_clears_spinner() {
    let mut m = BrowserModel::new();
    m.set_loading("https://bad.example");
    m.set_load_error();
    assert!(!m.loading);
    // URL is preserved so the user sees what failed.
    assert_eq!(m.current_url.as_deref(), Some("https://bad.example"));
}

#[test]
fn history_grows_on_navigation() {
    let mut m = BrowserModel::new();
    m.set_loading("https://a.com");
    m.set_loaded(None);
    m.set_loading("https://b.com");
    m.set_loaded(None);
    assert_eq!(m.history.len(), 2);
    assert!(m.history.can_go_back());
}

#[test]
fn set_current_url_replaces_url_only() {
    let mut m = BrowserModel::new();
    m.set_loading("https://a.com");
    m.set_current_url("https://a.com/redirected");
    assert_eq!(m.current_url.as_deref(), Some("https://a.com/redirected"));
    assert!(m.loading);
    assert_eq!(m.history.len(), 1);
}

#[test]
fn clone_model_keeps_state() {
    let mut m = BrowserModel::default();
    m.set_loading("https://a.com");
    m.set_loaded(Some("A".into()));
    let c = m.clone();
    assert_eq!(c.current_url, m.current_url);
    assert_eq!(c.current_title, m.current_title);
    assert_eq!(c.history.current(), m.history.current());
}
