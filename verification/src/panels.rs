//! What the application window shows: the tab bar, the page area and the
//! side panels (bookmarks, history, downloads), computed from the
//! application state for a renderer to draw.

use vstd::prelude::*;

use crate::app::{AppState, BrowserApp, BrowserPanel, Message};
use crate::app_model::{DownloadStatus, SavedBookmarkView, TabView, VisitView};
use crate::text::{concatenate, owned, truncate_chars};

verus! {

broadcast use vstd::string::group_string_axioms;

/// The first `n` characters of `s` (all of `s` when shorter).
pub open spec fn take_chars(s: Seq<char>, n: nat) -> Seq<char> {
    if n <= s.len() {
        s.take(n as int)
    } else {
        s
    }
}

/// Longest tab label, in characters.
pub const TAB_LABEL_CHARS: usize = 20;

/// Longest title shown in a panel row, in characters.
pub const ROW_TITLE_CHARS: usize = 30;

/// Longest file name shown in the downloads panel, in characters.
pub const FILE_NAME_CHARS: usize = 24;

/// Number of visits the history panel lists.
pub const HISTORY_ROWS: usize = 50;

/// A button: its label and the message it sends when pressed.
#[derive(Debug)]
pub struct Button {
    pub label: String,
    pub message: Message,
}

/// `b` is labelled `label` and sends `message`.
pub open spec fn is_button(b: Button, label: Seq<char>, message: Message) -> bool {
    b.label@ == label && b.message == message
}

/// A button labelled `label` that sends `message`.
fn button(label: &str, message: Message) -> (res: Button)
    ensures
        res.label@ == label@,
        res.message == message,
{
    Button { label: owned(label), message }
}

/// An item of the toolbar above the page.
#[derive(Debug)]
pub enum ToolbarItem {
    /// A button with `label` that sends `message` when pressed.
    Button { label: String, message: Message },
    /// The address field: it shows `value` (or `placeholder` while empty),
    /// sends `Message::AddressChanged` with the new text on every edit and
    /// `Message::Navigate` when the text is submitted.
    AddressField { placeholder: String, value: String },
}

/// `item` is a button with `label` that sends `message`.
pub open spec fn is_toolbar_button(item: ToolbarItem, label: Seq<char>, message: Message) -> bool {
    item matches ToolbarItem::Button { label: l, message: m } && l@ == label && m == message
}

/// The toolbar, left to right: back and forward (which do nothing yet),
/// reload, the address field, bookmark the current page, and the buttons
/// that toggle the bookmarks, history and downloads panels.
pub fn toolbar(app: &BrowserApp) -> (res: Vec<ToolbarItem>)
    ensures
        res@.len() == 8,
        is_toolbar_button(res@[0], "\u{2039}"@, Message::Noop),
        is_toolbar_button(res@[1], "\u{203a}"@, Message::Noop),
        is_toolbar_button(res@[2], "\u{21ba}"@, Message::Reload),
        res@[3] matches ToolbarItem::AddressField { placeholder, value } && placeholder@
            == "Enter URL or search\u{2026}"@ && value@ == app@.address_input,
        is_toolbar_button(res@[4], "\u{2606}"@, Message::BookmarkCurrent),
        is_toolbar_button(
            res@[5],
            "\u{1f516}"@,
            Message::PanelToggled(BrowserPanel::Bookmarks),
        ),
        is_toolbar_button(res@[6], "\u{23f1}"@, Message::PanelToggled(BrowserPanel::History)),
        is_toolbar_button(res@[7], "\u{2b07}"@, Message::PanelToggled(BrowserPanel::Downloads)),
{
    let mut res: Vec<ToolbarItem> = Vec::new();
    res.push(ToolbarItem::Button { label: owned("\u{2039}"), message: Message::Noop });
    res.push(ToolbarItem::Button { label: owned("\u{203a}"), message: Message::Noop });
    res.push(ToolbarItem::Button { label: owned("\u{21ba}"), message: Message::Reload });
    res.push(
        ToolbarItem::AddressField {
            placeholder: owned("Enter URL or search\u{2026}"),
            value: owned(app.address_input()),
        },
    );
    res.push(ToolbarItem::Button { label: owned("\u{2606}"), message: Message::BookmarkCurrent });
    res.push(
        ToolbarItem::Button {
            label: owned("\u{1f516}"),
            message: Message::PanelToggled(BrowserPanel::Bookmarks),
        },
    );
    res.push(
        ToolbarItem::Button {
            label: owned("\u{23f1}"),
            message: Message::PanelToggled(BrowserPanel::History),
        },
    );
    res.push(
        ToolbarItem::Button {
            label: owned("\u{2b07}"),
            message: Message::PanelToggled(BrowserPanel::Downloads),
        },
    );
    res
}

/// A tab in the tab bar.
#[derive(Debug)]
pub struct TabButton {
    pub id: u32,
    pub label: String,
    /// The active tab is drawn highlighted.
    pub active: bool,
    /// What pressing the label sends: select this tab.
    pub message: Message,
    /// The button beside the label: `\u{2715}`, closing this tab.
    pub close: Button,
}

/// The tab bar: the tabs, then the button that opens a new tab.
#[derive(Debug)]
pub struct TabBar {
    pub tabs: Vec<TabButton>,
    /// `+`, sending `Message::NewTab`.
    pub new_tab: Button,
}

/// `b` is the tab-bar button of the tab `t`, whose id `active` is active.
pub open spec fn is_tab_button(b: TabButton, t: TabView, active: u32) -> bool {
    &&& b.id == t.id
    &&& b.label@ == take_chars(t.title, TAB_LABEL_CHARS as nat)
    &&& b.active == (t.id == active)
    &&& b.message == Message::TabSelected(t.id)
    &&& is_button(b.close, "\u{2715}"@, Message::TabClosed(t.id))
}

/// The tab bar: one button per tab, in order, labelled with the first
/// characters of the tab's title, each with its close button, and the
/// new-tab button after them.
pub fn tab_bar(app: &BrowserApp) -> (res: TabBar)
    ensures
        res.tabs@.len() == app@.tabs.len(),
        forall|i: int|
            0 <= i < res.tabs@.len() ==> is_tab_button(
                #[trigger] res.tabs@[i],
                app@.tabs[i],
                app@.active_tab,
            ),
        is_button(res.new_tab, "+"@, Message::NewTab),
{
    let tabs = app.tabs();
    let active = app.active_tab();
    let mut res: Vec<TabButton> = Vec::new();
    let mut i: usize = 0;
    while i < tabs.len()
        invariant
            crate::app::tab_views(tabs@) == app@.tabs,
            active == app@.active_tab,
            i <= tabs@.len(),
            res@.len() == i,
            forall|k: int| 0 <= k < i ==> is_tab_button(#[trigger] res@[k], app@.tabs[k], active),
        decreases tabs@.len() - i,
    {
        let t = &tabs[i];
        assert(app@.tabs[i as int] == t@);
        res.push(
            TabButton {
                id: t.id,
                label: truncate_chars(t.title.as_str(), TAB_LABEL_CHARS),
                active: t.id == active,
                message: Message::TabSelected(t.id),
                close: button("\u{2715}", Message::TabClosed(t.id)),
            },
        );
        assert(res@[i as int].close.label@ == "\u{2715}"@);
        assert(res@[i as int].label@ == take_chars(t@.title, TAB_LABEL_CHARS as nat));
        assert(is_tab_button(res@[i as int], app@.tabs[i as int], active));
        i = i + 1;
    }
    TabBar { tabs: res, new_tab: button("+", Message::NewTab) }
}

/// A row of the bookmarks panel.
#[derive(Debug)]
pub struct BookmarkRow {
    pub id: i64,
    pub label: String,
    pub url: String,
    /// What pressing the title sends: open the bookmarked URL.
    pub open: Message,
    /// The button beside the title: `\u{2715}`, removing this bookmark.
    pub remove: Button,
}

/// `r` is the bookmarks-panel row of the bookmark `b`.
pub open spec fn is_bookmark_row(r: BookmarkRow, b: SavedBookmarkView) -> bool {
    &&& r.id == b.id
    &&& r.label@ == take_chars(b.title, ROW_TITLE_CHARS as nat)
    &&& r.url@ == b.url
    &&& r.open matches Message::NavigateTo(u) && u@ == b.url
    &&& is_button(r.remove, "\u{2715}"@, Message::BookmarkRemoved(b.id))
}

/// The rows of the bookmarks panel, oldest bookmark first.
pub fn bookmark_rows(app: &BrowserApp) -> (res: Vec<BookmarkRow>)
    ensures
        res@.len() == app@.bookmarks.len(),
        forall|i: int|
            0 <= i < res@.len() ==> is_bookmark_row(#[trigger] res@[i], app@.bookmarks[i]),
{
    let list = app.bookmarks();
    let mut res: Vec<BookmarkRow> = Vec::new();
    let mut i: usize = 0;
    while i < list.len()
        invariant
            crate::bookmarks::saved_views(list@) == app@.bookmarks,
            i <= list@.len(),
            res@.len() == i,
            forall|k: int| 0 <= k < i ==> is_bookmark_row(#[trigger] res@[k], app@.bookmarks[k]),
        decreases list@.len() - i,
    {
        let b = &list[i];
        assert(app@.bookmarks[i as int] == b@);
        res.push(
            BookmarkRow {
                id: b.id,
                label: truncate_chars(b.title.as_str(), ROW_TITLE_CHARS),
                url: b.url.clone(),
                open: Message::NavigateTo(b.url.clone()),
                remove: button("\u{2715}", Message::BookmarkRemoved(b.id)),
            },
        );
        assert(res@[i as int].remove.label@ == "\u{2715}"@);
        assert(res@[i as int].open matches Message::NavigateTo(u) && u@ == b@.url);
        assert(res@[i as int].label@ == take_chars(b@.title, ROW_TITLE_CHARS as nat));
        assert(is_bookmark_row(res@[i as int], app@.bookmarks[i as int]));
        i = i + 1;
    }
    res
}

/// A row of the history panel.
#[derive(Debug)]
pub struct HistoryRow {
    pub label: String,
    pub url: String,
    /// What pressing the row sends: open the visited URL again.
    pub open: Message,
}

/// `r` is the history-panel row of the visit `v`.
pub open spec fn is_history_row(r: HistoryRow, v: VisitView) -> bool {
    &&& r.label@ == take_chars(v.title, ROW_TITLE_CHARS as nat)
    &&& r.url@ == v.url
    &&& r.open matches Message::NavigateTo(u) && u@ == v.url
}

/// The rows of the history panel: the last 50 visits, most recent first.
pub fn history_rows(app: &BrowserApp) -> (res: Vec<HistoryRow>)
    ensures
        res@.len() == if app@.history.len() <= HISTORY_ROWS {
            app@.history.len() as int
        } else {
            HISTORY_ROWS as int
        },
        forall|i: int|
            0 <= i < res@.len() ==> is_history_row(
                #[trigger] res@[i],
                app@.history[app@.history.len() - 1 - i],
            ),
{
    let hist = app.history();
    let recent = crate::history::recent(hist.as_slice(), HISTORY_ROWS);
    let ghost n = app@.history.len();
    let mut res: Vec<HistoryRow> = Vec::new();
    let mut i: usize = 0;
    while i < recent.len()
        invariant
            crate::app::visit_views(hist@) == app@.history,
            n == app@.history.len(),
            recent@.len() == if n <= HISTORY_ROWS {
                n as int
            } else {
                HISTORY_ROWS as int
            },
            forall|k: int| 0 <= k < recent@.len() ==> *(#[trigger] recent@[k]) == hist@[n - 1 - k],
            i <= recent@.len(),
            res@.len() == i,
            forall|k: int| 0 <= k < i ==> is_history_row(#[trigger] res@[k], app@.history[n - 1 - k]),
        decreases recent@.len() - i,
    {
        let e = recent[i];
        assert(app@.history[n - 1 - i] == e@);
        res.push(
            HistoryRow {
                label: truncate_chars(e.title.as_str(), ROW_TITLE_CHARS),
                url: e.url.clone(),
                open: Message::NavigateTo(e.url.clone()),
            },
        );
        assert(res@[i as int].open matches Message::NavigateTo(u) && u@ == e@.url);
        assert(res@[i as int].label@ == take_chars(e@.title, ROW_TITLE_CHARS as nat));
        assert(is_history_row(res@[i as int], app@.history[n - 1 - i]));
        i = i + 1;
    }
    res
}

/// A row of the downloads panel.
#[derive(Debug)]
pub struct DownloadRow {
    pub name: String,
    pub status: DownloadStatus,
}

/// The rows of the downloads panel, oldest download first.
pub fn download_rows(app: &BrowserApp) -> (res: Vec<DownloadRow>)
    ensures
        res@.len() == app@.downloads.len(),
        forall|i: int|
            0 <= i < res@.len() ==> {
                let d = app@.downloads[i];
                &&& (#[trigger] res@[i]).name@ == take_chars(d.filename, FILE_NAME_CHARS as nat)
                &&& res@[i].status == d.status
            },
{
    let list = app.downloads();
    let mut res: Vec<DownloadRow> = Vec::new();
    let mut i: usize = 0;
    while i < list.len()
        invariant
            crate::app::download_views(list@) == app@.downloads,
            i <= list@.len(),
            res@.len() == i,
            forall|k: int|
                0 <= k < i ==> {
                    let d = app@.downloads[k];
                    &&& (#[trigger] res@[k]).name@ == take_chars(d.filename, FILE_NAME_CHARS as nat)
                    &&& res@[k].status == d.status
                },
        decreases list@.len() - i,
    {
        let d = &list[i];
        assert(app@.downloads[i as int].filename == d.filename@);
        res.push(
            DownloadRow { name: truncate_chars(d.filename.as_str(), FILE_NAME_CHARS), status: d.status },
        );
        i = i + 1;
    }
    res
}

/// What the page area shows.
#[derive(Debug)]
pub enum PageArea {
    /// No page: a globe and an invitation to enter a URL or search term.
    Welcome { icon: String, text: String },
    /// A page is being shown: `caption` is `Loading: ` and its URL, `note`
    /// says that no web engine draws pages yet.
    Loading { caption: String, note: String },
}

/// The page area for the current URL of the active tab.
pub fn page_area(app: &BrowserApp) -> (res: PageArea)
    ensures
        app@.current_url().len() == 0 ==> res is Welcome,
        app@.current_url().len() > 0 ==> res is Loading,
        res matches PageArea::Welcome { icon, text } ==> icon@ == "\u{1f310}"@ && text@
            == "Enter a URL or search term above"@,
        res matches PageArea::Loading { caption, note } ==> caption@ == "Loading: "@
            + app@.current_url() && note@ == "(Web engine not yet connected \u{2014} G2.6)"@,
{
    let url = app.current_url();
    if url.is_empty() {
        PageArea::Welcome {
            icon: owned("\u{1f310}"),
            text: owned("Enter a URL or search term above"),
        }
    } else {
        PageArea::Loading {
            caption: concatenate("Loading: ", url),
            note: owned("(Web engine not yet connected \u{2014} G2.6)"),
        }
    }
}

/// The frame of the open side panel: its heading, the button beside the
/// heading, and the text shown in place of rows while its list is empty.
#[derive(Debug)]
pub struct PanelFrame {
    pub heading: String,
    pub action: Option<Button>,
    pub empty_text: Option<String>,
}

/// `f` has `heading`, no button, and `empty` as its text exactly when the
/// list is empty (`is_empty`).
pub open spec fn is_plain_frame(
    f: PanelFrame,
    heading: Seq<char>,
    empty: Seq<char>,
    is_empty: bool,
) -> bool {
    &&& f.heading@ == heading
    &&& f.action is None
    &&& is_empty ==> (f.empty_text matches Some(t) && t@ == empty)
    &&& !is_empty ==> f.empty_text is None
}

/// `f` is the history frame: `History`, the `Clear` button that clears the
/// history, and `No history yet` exactly when there is none (`is_empty`).
pub open spec fn is_history_frame(f: PanelFrame, is_empty: bool) -> bool {
    &&& f.heading@ == "History"@
    &&& f.action matches Some(b) && is_button(b, "Clear"@, Message::HistoryCleared)
    &&& is_empty ==> (f.empty_text matches Some(t) && t@ == "No history yet"@)
    &&& !is_empty ==> f.empty_text is None
}

/// The frame of the open side panel; `None` while no panel is open.
/// Bookmarks: `Bookmarks`, empty text `No bookmarks yet`. History: `History`
/// with a `Clear` button that clears the history, empty text
/// `No history yet`. Downloads: `Downloads`, empty text `No downloads`.
pub fn panel_frame(app: &BrowserApp) -> (res: Option<PanelFrame>)
    ensures
        res is None <==> app@.panel == BrowserPanel::Browse,
        app@.panel == BrowserPanel::Bookmarks ==> (res matches Some(f) && is_plain_frame(
            f,
            "Bookmarks"@,
            "No bookmarks yet"@,
            app@.bookmarks.len() == 0,
        )),
        app@.panel == BrowserPanel::History ==> (res matches Some(f) && is_history_frame(
            f,
            app@.history.len() == 0,
        )),
        app@.panel == BrowserPanel::Downloads ==> (res matches Some(f) && is_plain_frame(
            f,
            "Downloads"@,
            "No downloads"@,
            app@.downloads.len() == 0,
        )),
{
    match app.panel() {
        BrowserPanel::Browse => None,
        BrowserPanel::Bookmarks => {
            let empty = app.bookmarks().len() == 0;
            Some(
                PanelFrame {
                    heading: owned("Bookmarks"),
                    action: None,
                    empty_text: if empty {
                        Some(owned("No bookmarks yet"))
                    } else {
                        None
                    },
                },
            )
        },
        BrowserPanel::History => {
            let empty = app.history().len() == 0;
            Some(
                PanelFrame {
                    heading: owned("History"),
                    action: Some(button("Clear", Message::HistoryCleared)),
                    empty_text: if empty {
                        Some(owned("No history yet"))
                    } else {
                        None
                    },
                },
            )
        },
        BrowserPanel::Downloads => {
            let empty = app.downloads().len() == 0;
            Some(
                PanelFrame {
                    heading: owned("Downloads"),
                    action: None,
                    empty_text: if empty {
                        Some(owned("No downloads"))
                    } else {
                        None
                    },
                },
            )
        },
    }
}

/// Whether a side panel is open next to the page.
pub fn shows_panel(app: &BrowserApp) -> (res: bool)
    ensures
        res == (app@.panel != BrowserPanel::Browse),
{
    app.panel() != BrowserPanel::Browse
}

} // verus!
