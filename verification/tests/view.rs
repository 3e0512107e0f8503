use fs_browser::model::BrowserModel;
use fs_browser::view::BrowserView;

fn view_with_url(url: &str) -> BrowserView {
    let mut m = BrowserModel::new();
    m.set_loading(url);
    m.set_loaded(Some("Test Page".into()));
    BrowserView::new(m)
}

#[test]
fn view_produces_widget() {
    let v = view_with_url("https://example.com");
    let w = v.view();
    assert_eq!(w.widget_id(), "browser-chrome");
    assert!(w.is_enabled());
}

#[test]
fn view_empty_model() {
    let v = BrowserView::new(BrowserModel::new());
    let w = v.view();
    assert_eq!(w.widget_id(), "browser-chrome");
}

#[test]
fn view_loading_disables_address_bar_in_items() {
    let mut m = BrowserModel::new();
    m.set_loading("https://loading.example");
    // While loading the view should still produce a valid widget.
    let v = BrowserView::new(m);
    let w = v.view();
    assert_eq!(w.widget_id(), "browser-chrome");
}

#[test]
fn view_items_are_labels_and_url() {
    let w = view_with_url("https://example.com").view();
    assert_eq!(
        w.items,
        vec!["browser-btn-back", "browser-btn-forward", "browser-btn-refresh", "https://example.com"]
    );
    assert!(w.selected_index.is_none());
    let blank = BrowserView::new(BrowserModel::new()).view();
    assert_eq!(blank.items[3], "about:blank");
}

#[test]
fn chrome_buttons_follow_history_and_loading() {
    let mut m = BrowserModel::new();
    m.set_loading("https://a.com");
    m.set_loaded(None);
    m.set_loading("https://b.com");
    let c = BrowserView::new(m).chrome();
    assert!(c.back.enabled);
    assert!(!c.forward.enabled);
    assert!(!c.reload.enabled);
    assert!(!c.address_bar.enabled);
    assert_eq!(c.address_bar.value, "https://b.com");
    assert_eq!(c.back.action, "back");
}
