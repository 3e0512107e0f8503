use fs_browser::bookmark::InMemoryBookmarkStore;
use fs_browser::cli::{parse_u16, port_or, run_command, BookmarkAction, Command};
use fs_browser::controller::BrowserController;

fn ctrl() -> BrowserController<InMemoryBookmarkStore> {
    BrowserController::new(InMemoryBookmarkStore::new())
}

#[test]
fn cli_open_prints_url() {
    let mut c = ctrl();
    let lines = run_command(&mut c, Command::Open { url: "https://a.com".into() });
    assert_eq!(lines, vec!["Opened: https://a.com"]);
    assert_eq!(c.snapshot().current_url.as_deref(), Some("https://a.com"));
}

#[test]
fn cli_history_lines() {
    let mut c = ctrl();
    assert_eq!(run_command(&mut c, Command::History), vec!["No history."]);
    c.open_url("https://a.com");
    let lines = run_command(&mut c, Command::History);
    assert_eq!(lines.len(), 1);
    assert!(lines[0].ends_with("+00:00 — https://a.com"), "{}", lines[0]);
}

#[test]
fn cli_bookmark_commands() {
    let mut c = ctrl();
    let list = |c: &mut BrowserController<InMemoryBookmarkStore>| {
        run_command(c, Command::Bookmarks { action: BookmarkAction::List })
    };
    assert_eq!(list(&mut c), vec!["No bookmarks."]);
    let added = run_command(
        &mut c,
        Command::Bookmarks { action: BookmarkAction::Add { title: "FS".into(), url: "https://fs.net".into() } },
    );
    let id = c.list_bookmarks()[0].id.clone();
    assert_eq!(added, vec![format!("Bookmark added: [{id}] FS — https://fs.net")]);
    assert_eq!(list(&mut c), vec![format!("[{id}] FS — https://fs.net")]);
    let removed = run_command(&mut c, Command::Bookmarks { action: BookmarkAction::Remove { id: id.clone() } });
    assert_eq!(removed, vec![format!("Bookmark {id} removed.")]);
    let again = run_command(&mut c, Command::Bookmarks { action: BookmarkAction::Remove { id: id.clone() } });
    assert_eq!(again, vec![format!("Bookmark {id} not found.")]);
}

#[test]
fn port_parsing_matches_std() {
    for s in ["8080", "+80", "65535", "65536", "", "+", "-1", "12a", "007", "99999999999"] {
        assert_eq!(parse_u16(s), s.parse::<u16>().ok(), "{s:?}");
    }
    assert_eq!(port_or(None, 50_070), 50_070);
    assert_eq!(port_or(Some("x"), 8_080), 8_080);
    assert_eq!(port_or(Some("9000"), 8_080), 9_000);
}
