use fs_browser::app::{BrowserApp, BrowserPanel, Message};
use fs_browser::panels::{
    bookmark_rows, download_rows, history_rows, page_area, panel_frame, shows_panel, tab_bar, toolbar,
    PageArea, ToolbarItem,
};
use fs_browser::search_engine::BrowserConfig;

fn app_with_pages() -> BrowserApp {
    let mut app = BrowserApp::new(BrowserConfig::default());
    let _ = app.update(Message::NavigateTo("https://a-very-long-domain-name.example/path".into()));
    let _ = app.update(Message::BookmarkCurrent);
    let _ = app.update(Message::NavigateTo("https://b.test".into()));
    app
}

#[test]
fn tab_labels_are_truncated_and_active_marked() {
    let mut app = app_with_pages();
    let _ = app.update(Message::NewTab);
    let bar = tab_bar(&app);
    assert_eq!(bar.new_tab.label, "+");
    assert!(matches!(bar.new_tab.message, Message::NewTab));
    let bar = bar.tabs;
    assert_eq!(bar.len(), 2);
    assert_eq!(bar[0].label, "https://b.test");
    assert!(!bar[0].active);
    assert!(matches!(bar[0].message, Message::TabSelected(1)));
    assert_eq!(bar[0].close.label, "\u{2715}");
    assert!(matches!(bar[0].close.message, Message::TabClosed(1)));
    assert_eq!(bar[1].label, "New Tab");
    assert!(bar[1].active);
    assert!(matches!(bar[1].close.message, Message::TabClosed(2)));
    let _ = app.update(Message::TabSelected(1));
    let _ = app.update(Message::NavigateTo("https://a-very-long-domain-name.example/".into()));
    assert_eq!(tab_bar(&app).tabs[0].label, "https://a-very-long-");
}

#[test]
fn bookmark_rows_carry_id_and_url() {
    let app = app_with_pages();
    let rows = bookmark_rows(&app);
    assert_eq!(rows.len(), 1);
    assert_eq!(rows[0].url, "https://a-very-long-domain-name.example/path");
    assert_eq!(rows[0].label, "https://a-very-long-domain-nam");
    assert_eq!(rows[0].id, app.bookmarks()[0].id);
    match &rows[0].open {
        Message::NavigateTo(u) => assert_eq!(u, "https://a-very-long-domain-name.example/path"),
        _ => panic!("a row opens its URL"),
    }
    assert_eq!(rows[0].remove.label, "\u{2715}");
    match rows[0].remove.message {
        Message::BookmarkRemoved(id) => assert_eq!(id, rows[0].id),
        _ => panic!("the cross removes the bookmark"),
    }
}

#[test]
fn history_rows_most_recent_first_limited() {
    let mut app = BrowserApp::new(BrowserConfig::default());
    for i in 0..60 {
        let _ = app.update(Message::NavigateTo(format!("https://p{i}.test")));
    }
    let rows = history_rows(&app);
    assert_eq!(rows.len(), 50);
    assert_eq!(rows[0].url, "https://p59.test");
    assert_eq!(rows[49].url, "https://p10.test");
    match &rows[0].open {
        Message::NavigateTo(u) => assert_eq!(u, "https://p59.test"),
        _ => panic!("a row opens its URL"),
    }
}

#[test]
fn page_area_and_panel_flag() {
    let mut app = BrowserApp::new(BrowserConfig::default());
    match page_area(&app) {
        PageArea::Welcome { icon, text } => {
            assert_eq!(icon, "\u{1f310}");
            assert_eq!(text, "Enter a URL or search term above");
        }
        PageArea::Loading { .. } => panic!("expected the welcome"),
    }
    assert!(!shows_panel(&app));
    let _ = app.update(Message::NavigateTo("https://b.test".into()));
    match page_area(&app) {
        PageArea::Loading { caption, note } => {
            assert_eq!(caption, "Loading: https://b.test");
            assert_eq!(note, "(Web engine not yet connected \u{2014} G2.6)");
        }
        PageArea::Welcome { .. } => panic!("expected a page"),
    }
    let _ = app.update(Message::PanelToggled(BrowserPanel::Downloads));
    assert!(shows_panel(&app));
    assert!(download_rows(&app).is_empty());
}

fn button(item: &ToolbarItem) -> (&str, &Message) {
    match item {
        ToolbarItem::Button { label, message } => (label.as_str(), message),
        ToolbarItem::AddressField { .. } => panic!("expected a button"),
    }
}

#[test]
fn toolbar_buttons_and_address_field() {
    let mut app = BrowserApp::new(BrowserConfig::default());
    let _ = app.update(Message::AddressChanged("rust verus".into()));
    let bar = toolbar(&app);
    assert_eq!(bar.len(), 8);
    assert!(matches!(button(&bar[0]), ("\u{2039}", Message::Noop)));
    assert!(matches!(button(&bar[1]), ("\u{203a}", Message::Noop)));
    assert!(matches!(button(&bar[2]), ("\u{21ba}", Message::Reload)));
    match &bar[3] {
        ToolbarItem::AddressField { placeholder, value } => {
            assert_eq!(placeholder, "Enter URL or search\u{2026}");
            assert_eq!(value, "rust verus");
        }
        ToolbarItem::Button { .. } => panic!("expected the address field"),
    }
    assert!(matches!(button(&bar[4]), ("\u{2606}", Message::BookmarkCurrent)));
    assert!(matches!(button(&bar[5]), ("\u{1f516}", Message::PanelToggled(BrowserPanel::Bookmarks))));
    assert!(matches!(button(&bar[6]), ("\u{23f1}", Message::PanelToggled(BrowserPanel::History))));
    assert!(matches!(button(&bar[7]), ("\u{2b07}", Message::PanelToggled(BrowserPanel::Downloads))));
}

#[test]
fn panel_frames_headings_and_empty_texts() {
    let mut app = BrowserApp::new(BrowserConfig::default());
    assert!(panel_frame(&app).is_none());
    let _ = app.update(Message::PanelToggled(BrowserPanel::Bookmarks));
    let f = panel_frame(&app).unwrap();
    assert_eq!(f.heading, "Bookmarks");
    assert!(f.action.is_none());
    assert_eq!(f.empty_text.as_deref(), Some("No bookmarks yet"));
    let _ = app.update(Message::PanelToggled(BrowserPanel::History));
    let f = panel_frame(&app).unwrap();
    assert_eq!(f.heading, "History");
    let clear = f.action.unwrap();
    assert_eq!(clear.label, "Clear");
    assert!(matches!(clear.message, Message::HistoryCleared));
    assert_eq!(f.empty_text.as_deref(), Some("No history yet"));
    let _ = app.update(Message::NavigateTo("https://a.test".into()));
    assert!(panel_frame(&app).unwrap().empty_text.is_none());
    let _ = app.update(Message::PanelToggled(BrowserPanel::Downloads));
    let f = panel_frame(&app).unwrap();
    assert_eq!(f.heading, "Downloads");
    assert_eq!(f.empty_text.as_deref(), Some("No downloads"));
}
