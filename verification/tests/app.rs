use fs_browser::app::{normalize_url, BrowserApp, BrowserPanel, EngineCommand, Message};
use fs_browser::search_engine::BrowserConfig;

fn new_app() -> BrowserApp {
    BrowserApp::new(BrowserConfig::default())
}

#[test]
fn new_app_has_one_tab() {
    let app = new_app();
    assert_eq!(app.tabs().len(), 1);
    assert_eq!(app.active_tab(), 1);
}

#[test]
fn navigate_updates_tab_url() {
    let mut app = new_app();
    let _ = app.update(Message::AddressChanged("https://freesynergy.net".into()));
    let _ = app.update(Message::Navigate);
    assert_eq!(app.current_url(), "https://freesynergy.net");
}

#[test]
fn new_tab_increments_count() {
    let mut app = new_app();
    let _ = app.update(Message::NewTab);
    assert_eq!(app.tabs().len(), 2);
}

#[test]
fn close_last_tab_resets_instead_of_removing() {
    let mut app = new_app();
    let _ = app.update(Message::Navigate);
    let _ = app.update(Message::TabClosed(1));
    assert_eq!(app.tabs().len(), 1);
    assert!(app.tabs()[0].url.is_empty());
}

#[test]
fn close_tab_switches_to_adjacent() {
    let mut app = new_app();
    let _ = app.update(Message::NewTab);
    assert_eq!(app.tabs().len(), 2);
    let second_id = app.tabs()[1].id;
    let _ = app.update(Message::TabClosed(second_id));
    assert_eq!(app.tabs().len(), 1);
    assert_eq!(app.active_tab(), 1);
}

#[test]
fn bookmark_added_to_list() {
    let mut app = new_app();
    let _ = app.update(Message::NavigateTo("https://example.com".into()));
    let _ = app.update(Message::BookmarkCurrent);
    assert_eq!(app.bookmarks().len(), 1);
}

#[test]
fn history_recorded_on_navigate() {
    let mut app = new_app();
    let _ = app.update(Message::NavigateTo("https://example.com".into()));
    assert_eq!(app.history().len(), 1);
}

#[test]
fn history_cleared() {
    let mut app = new_app();
    let _ = app.update(Message::NavigateTo("https://example.com".into()));
    let _ = app.update(Message::HistoryCleared);
    assert!(app.history().is_empty());
}

#[test]
fn normalize_url_prepends_https_for_domain() {
    let cfg = BrowserConfig::default();
    assert_eq!(normalize_url("example.com", &cfg), "https://example.com");
}

#[test]
fn normalize_url_passthrough_for_full_url() {
    let cfg = BrowserConfig::default();
    assert_eq!(
        normalize_url("https://example.com/path", &cfg),
        "https://example.com/path"
    );
}

#[test]
fn normalize_url_builds_search_url_for_terms() {
    let cfg = BrowserConfig::default();
    let url = normalize_url("freeSynergy platform", &cfg);
    assert!(url.contains("freeSynergy"), "url={url}");
}

// ── Further cases ────────────────────────────────────────────────────────────

#[test]
fn normalize_url_trims_and_handles_empty() {
    let cfg = BrowserConfig::default();
    assert_eq!(normalize_url("   ", &cfg), "");
    assert_eq!(normalize_url("  example.com \n", &cfg), "https://example.com");
    assert_eq!(normalize_url("file:///tmp/x", &cfg), "file:///tmp/x");
    assert_eq!(normalize_url("http://a", &cfg), "http://a");
}

#[test]
fn normalize_url_exact_search_url() {
    let cfg = BrowserConfig::default();
    assert_eq!(
        normalize_url("freeSynergy platform", &cfg),
        "https://search.brave.com/search?q=freeSynergy+platform"
    );
    // A dot together with a space is a search, not a domain.
    assert_eq!(
        normalize_url("v1.0 notes", &cfg),
        "https://search.brave.com/search?q=v1.0+notes"
    );
}

#[test]
fn navigate_commands_the_engine() {
    let mut app = new_app();
    let cmds = app.update(Message::NavigateTo("https://a.test".into()));
    assert_eq!(cmds.len(), 1);
    match &cmds[0] {
        EngineCommand::Navigate(u) => assert_eq!(u, "https://a.test"),
        other => panic!("unexpected {other:?}"),
    }
    assert_eq!(app.address_input(), "https://a.test");
    assert_eq!(app.tabs()[0].title, "https://a.test");
}

#[test]
fn reload_without_page_does_nothing() {
    let mut app = new_app();
    let cmds = app.update(Message::Reload);
    assert!(cmds.is_empty());
    assert!(app.history().is_empty());
}

#[test]
fn reload_reloads_and_records_visit() {
    let mut app = new_app();
    let _ = app.update(Message::NavigateTo("https://a.test".into()));
    let cmds = app.update(Message::Reload);
    assert_eq!(cmds.len(), 2);
    assert!(matches!(cmds[0], EngineCommand::ReloadView));
    assert_eq!(app.history().len(), 2);
    assert_eq!(app.history()[1].url, "https://a.test");
}

#[test]
fn new_tab_creates_view_named_after_tab() {
    let mut app = new_app();
    let cmds = app.update(Message::NewTab);
    match &cmds[0] {
        EngineCommand::CreateView(v) => assert_eq!(v, "tab-2"),
        other => panic!("unexpected {other:?}"),
    }
    assert_eq!(app.active_tab(), 2);
    assert_eq!(app.address_input(), "");
}

#[test]
fn closing_single_tab_recreates_first_view() {
    let mut app = new_app();
    let cmds = app.update(Message::TabClosed(1));
    match &cmds[0] {
        EngineCommand::CreateView(v) => assert_eq!(v, "tab-1"),
        other => panic!("unexpected {other:?}"),
    }
    assert_eq!(app.tabs()[0].title, "New Tab");
}

#[test]
fn closing_inactive_tab_keeps_active() {
    let mut app = new_app();
    let _ = app.update(Message::NewTab);
    let _ = app.update(Message::NewTab);
    let _ = app.update(Message::TabSelected(3));
    let _ = app.update(Message::TabClosed(1));
    assert_eq!(app.active_tab(), 3);
    let ids: Vec<u32> = app.tabs().iter().map(|t| t.id).collect();
    assert_eq!(ids, vec![2, 3]);
}

#[test]
fn closing_first_active_tab_selects_new_first() {
    let mut app = new_app();
    let _ = app.update(Message::NewTab);
    let _ = app.update(Message::NavigateTo("https://two.test".into()));
    let _ = app.update(Message::TabSelected(1));
    let _ = app.update(Message::TabClosed(1));
    assert_eq!(app.active_tab(), 2);
    assert_eq!(app.address_input(), "https://two.test");
}

#[test]
fn closing_unknown_tab_removes_first() {
    let mut app = new_app();
    let _ = app.update(Message::NewTab);
    let _ = app.update(Message::TabClosed(99));
    let ids: Vec<u32> = app.tabs().iter().map(|t| t.id).collect();
    assert_eq!(ids, vec![2]);
}

#[test]
fn tab_selected_shows_its_url() {
    let mut app = new_app();
    let _ = app.update(Message::NavigateTo("https://one.test".into()));
    let _ = app.update(Message::NewTab);
    let _ = app.update(Message::TabSelected(1));
    assert_eq!(app.address_input(), "https://one.test");
    let _ = app.update(Message::TabSelected(42));
    assert_eq!(app.address_input(), "");
    assert_eq!(app.current_url(), "");
}

#[test]
fn panel_toggles() {
    let mut app = new_app();
    let _ = app.update(Message::PanelToggled(BrowserPanel::History));
    assert_eq!(app.panel(), BrowserPanel::History);
    let _ = app.update(Message::PanelToggled(BrowserPanel::Bookmarks));
    assert_eq!(app.panel(), BrowserPanel::Bookmarks);
    let _ = app.update(Message::PanelToggled(BrowserPanel::Bookmarks));
    assert_eq!(app.panel(), BrowserPanel::Browse);
}

#[test]
fn bookmark_current_twice_keeps_one() {
    let mut app = new_app();
    let _ = app.update(Message::NavigateTo("https://example.com".into()));
    let _ = app.update(Message::BookmarkCurrent);
    let _ = app.update(Message::BookmarkCurrent);
    assert_eq!(app.bookmarks().len(), 1);
    assert_eq!(app.status_msg(), Some("Bookmark added"));
}

#[test]
fn bookmark_current_without_page_does_nothing() {
    let mut app = new_app();
    let _ = app.update(Message::BookmarkCurrent);
    assert!(app.bookmarks().is_empty());
    assert_eq!(app.status_msg(), None);
}

#[test]
fn bookmark_removed_by_id() {
    let mut app = new_app();
    let _ = app.update(Message::NavigateTo("https://example.com".into()));
    let _ = app.update(Message::BookmarkCurrent);
    let id = app.bookmarks()[0].id;
    let _ = app.update(Message::BookmarkRemoved(id));
    assert!(app.bookmarks().is_empty());
}

#[test]
fn record_ids_increase_across_visits_and_bookmarks() {
    let mut app = new_app();
    let _ = app.update(Message::NavigateTo("https://example.com".into()));
    let _ = app.update(Message::BookmarkCurrent);
    let _ = app.update(Message::NavigateTo("https://example.org".into()));
    assert_eq!(app.history()[0].id, 1);
    assert_eq!(app.bookmarks()[0].id, 2);
    assert_eq!(app.history()[1].id, 3);
}

#[test]
fn new_tab_then_close_restores_tabs() {
    let mut app = new_app();
    let _ = app.update(Message::NewTab);
    let _ = app.update(Message::TabClosed(2));
    let ids: Vec<u32> = app.tabs().iter().map(|t| t.id).collect();
    assert_eq!(ids, vec![1]);
    assert_eq!(app.active_tab(), 1);
}

#[test]
fn noop_and_address_change() {
    let mut app = new_app();
    assert!(app.update(Message::Noop).is_empty());
    let _ = app.update(Message::AddressChanged("typed".into()));
    assert_eq!(app.address_input(), "typed");
    assert!(app.history().is_empty());
}

#[test]
fn normalize_url_is_idempotent() {
    let cfg = BrowserConfig::default();
    for input in ["  rust verus  ", "example.com", "https://a.test/x", "", "   ", "file:///tmp/a", "caf\u{e9} \u{20ac}", "a?b=c"] {
        let once = normalize_url(input, &cfg);
        assert_eq!(normalize_url(&once, &cfg), once, "input {input:?}");
    }
    let searx = BrowserConfig { search_engine: "searxng".to_string() };
    let once = normalize_url("local search", &searx);
    assert_eq!(once, "http://localhost:8888/search?q=local+search");
    assert_eq!(normalize_url(&once, &searx), once);
}
