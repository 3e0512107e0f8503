//! The state machine of the desktop browser application: tabs, the address
//! bar, side panels, bookmarks and visit history. Each message updates the
//! state and yields the commands that the web engine has to carry out.

use vstd::prelude::*;

use crate::app_model::{
    Bookmark, BrowserTab, DownloadEntry, DownloadStatus, HistoryEntry, SavedBookmarkView, TabView,
    VisitView,
};
use crate::bookmarks::{is_bookmarked, saved_views, without_saved_id, BookmarkManager};
use crate::search_engine::{
    find_spec, lemma_encode_ends_without_white_space, lemma_found_template_is_web,
    query_placeholder, search_url_spec, url_encode_spec, BrowserConfig,
};
use crate::stamp::{is_rfc3339_utc_text, now_rfc3339};
use crate::text::{
    concatenate, contains_char, decimal_spec, decimal_string, lemma_replace_after_prefix,
    lemma_trim_fixed, lemma_trim_shape, owned, starts_with, starts_with_spec, trim, trim_spec,
};

verus! {

broadcast use vstd::string::group_string_axioms;

// ── Messages and commands ────────────────────────────────────────────────────

/// The side panel that is open next to the page.
#[derive(Debug, Clone, Copy, PartialEq, Eq, Structural)]
pub enum BrowserPanel {
    Browse,
    Bookmarks,
    History,
    Downloads,
}

impl Default for BrowserPanel {
    fn default() -> (res: Self)
        ensures
            res == BrowserPanel::Browse,
    {
        BrowserPanel::Browse
    }
}

/// Browser application messages.
#[derive(Debug)]
pub enum Message {
    AddressChanged(String),
    Navigate,
    NavigateTo(String),
    Reload,
    TabSelected(u32),
    TabClosed(u32),
    NewTab,
    PanelToggled(BrowserPanel),
    BookmarkCurrent,
    BookmarkRemoved(i64),
    HistoryCleared,
    Noop,
}

/// What the web engine has to do after a message.
#[derive(Debug)]
pub enum EngineCommand {
    /// Reload the page of the current web view.
    ReloadView,
    /// Load this URL in the current web view.
    Navigate(String),
    /// Replace the current web view by a new one with this view id.
    CreateView(String),
}

/// An engine command, as a mathematical value.
pub enum CommandView {
    ReloadView,
    Navigate(Seq<char>),
    CreateView(Seq<char>),
}

impl View for EngineCommand {
    type V = CommandView;

    open spec fn view(&self) -> CommandView {
        match self {
            EngineCommand::ReloadView => CommandView::ReloadView,
            EngineCommand::Navigate(u) => CommandView::Navigate(u@),
            EngineCommand::CreateView(v) => CommandView::CreateView(v@),
        }
    }
}

/// The views of a list of engine commands.
pub open spec fn command_views(v: Seq<EngineCommand>) -> Seq<CommandView> {
    v.map_values(|c: EngineCommand| c@)
}

// ── Address normalisation ────────────────────────────────────────────────────

/// The address that the address-bar text `input` stands for, with the search
/// engine `engine_id`: the trimmed text when it is empty or an `http://`,
/// `https://` or `file://` URL; `https://` before it when it holds a dot and
/// no space; otherwise a search for it.
pub open spec fn normalize_spec(input: Seq<char>, engine_id: Seq<char>) -> Seq<char> {
    let t = trim_spec(input);
    if t.len() == 0 {
        t
    } else if starts_with_spec(t, "http://"@) || starts_with_spec(t, "https://"@)
        || starts_with_spec(t, "file://"@) {
        t
    } else if t.contains('.') && !t.contains(' ') {
        "https://"@ + t
    } else {
        search_url_spec(find_spec(engine_id).url_template, t)
    }
}

/// Normalises address-bar input to a URL.
pub fn normalize_url(input: &str, config: &BrowserConfig) -> (res: String)
    ensures
        res@ == normalize_spec(input@, config.search_engine@),
{
    let t = trim(input);
    let ts = t.as_str();
    if ts.is_empty() {
        return t;
    }
    if starts_with(ts, "http://") || starts_with(ts, "https://") || starts_with(ts, "file://") {
        t
    } else if contains_char(ts, '.') && !contains_char(ts, ' ') {
        concatenate("https://", ts)
    } else {
        config.build_search_url(ts)
    }
}

/// Normalising an address that was already normalised changes nothing: the
/// result is empty or a trimmed `http://`, `https://` or `file://` URL,
/// whatever the address and the engine.
pub proof fn law_normalize_idempotent(input: Seq<char>, engine_id: Seq<char>)
    ensures
        normalize_spec(normalize_spec(input, engine_id), engine_id) == normalize_spec(
            input,
            engine_id,
        ),
{
    reveal_strlit("http://");
    reveal_strlit("https://");
    reveal_strlit("file://");
    let t = trim_spec(input);
    lemma_trim_shape(input);
    let r = normalize_spec(input, engine_id);
    if t.len() == 0 {
        assert(trim_spec(r) == r);
    } else if starts_with_spec(t, "http://"@) || starts_with_spec(t, "https://"@)
        || starts_with_spec(t, "file://"@) {
        lemma_trim_fixed(t);
    } else if t.contains('.') && !t.contains(' ') {
        assert(r == "https://"@ + t);
        assert(r[0] == 'h');
        assert(r.last() == t.last());
        lemma_trim_fixed(r);
        assert(r.subrange(0, 8) =~= "https://"@);
    } else {
        let tpl = find_spec(engine_id).url_template;
        lemma_found_template_is_web(engine_id);
        let pat = query_placeholder();
        let n = tpl.len() - pat.len();
        let p = tpl.take(n);
        assert(tpl =~= p + pat);
        reveal_strlit("{query}");
        let e = url_encode_spec(t);
        lemma_replace_after_prefix(p, pat, e);
        assert(r == p + e);
        lemma_encode_ends_without_white_space(t);
        if starts_with_spec(p, "http://"@) {
            assert(r.subrange(0, 7) =~= p.subrange(0, 7));
            assert(p[0] == p.subrange(0, 7)[0]);
        } else {
            assert(r.subrange(0, 8) =~= p.subrange(0, 8));
            assert(p[0] == p.subrange(0, 8)[0]);
        }
        assert(r[0] == p[0]);
        assert(r.last() == e.last());
        lemma_trim_fixed(r);
    }
}


/// A text that is no `http://`, `https://` or `file://` URL is searched
/// for with the configured engine unless it looks like a host name: it
/// holds no dot, or it holds a space. Only a text with a dot and no space
/// gets `https://` put before it.
pub proof fn law_normalize_searches_non_hosts(input: Seq<char>, engine_id: Seq<char>)
    ensures
        ({
            let t = trim_spec(input);
            let url_like = starts_with_spec(t, "http://"@) || starts_with_spec(t, "https://"@)
                || starts_with_spec(t, "file://"@);
            &&& (t.len() > 0 && !url_like && (!t.contains('.') || t.contains(' ')))
                ==> normalize_spec(input, engine_id) == search_url_spec(
                find_spec(engine_id).url_template,
                t,
            )
            &&& (t.len() > 0 && !url_like && t.contains('.') && !t.contains(' '))
                ==> normalize_spec(input, engine_id) == "https://"@ + t
            &&& (t.len() == 0 || url_like) ==> normalize_spec(input, engine_id) == t
        }),
{
}

// ── Application state ────────────────────────────────────────────────────────

/// `i` is the first position of a tab with id `id`.
pub open spec fn is_first_tab(tabs: Seq<TabView>, id: u32, i: int) -> bool {
    &&& 0 <= i < tabs.len()
    &&& tabs[i].id == id
    &&& forall|j: int| 0 <= j < i ==> (#[trigger] tabs[j]).id != id
}

/// The first position of a tab with id `id`, or -1 when there is none.
pub open spec fn tab_position(tabs: Seq<TabView>, id: u32) -> int {
    if exists|i: int| is_first_tab(tabs, id, i) {
        choose|i: int| is_first_tab(tabs, id, i)
    } else {
        -1
    }
}

proof fn lemma_first_tab_unique(tabs: Seq<TabView>, id: u32, i: int, k: int)
    requires
        is_first_tab(tabs, id, i),
        is_first_tab(tabs, id, k),
    ensures
        i == k,
{
    if i < k {
        assert(tabs[i].id != id);
    } else if k < i {
        assert(tabs[k].id != id);
    }
}

proof fn lemma_tab_position(tabs: Seq<TabView>, id: u32, i: int)
    requires
        is_first_tab(tabs, id, i),
    ensures
        tab_position(tabs, id) == i,
{
    let k = choose|k: int| is_first_tab(tabs, id, k);
    lemma_first_tab_unique(tabs, id, i, k);
}

/// A download, as a mathematical value.
pub struct DownloadView {
    pub filename: Seq<char>,
    pub status: DownloadStatus,
}

/// The state of the application, as mathematical values.
pub struct AppState {
    pub tabs: Seq<TabView>,
    pub active_tab: u32,
    pub next_tab_id: u32,
    pub address_input: Seq<char>,
    pub panel: BrowserPanel,
    pub bookmarks: Seq<SavedBookmarkView>,
    pub history: Seq<VisitView>,
    pub downloads: Seq<DownloadView>,
    pub search_engine: Seq<char>,
    pub status_msg: Option<Seq<char>>,
    pub next_record_id: i64,
}

/// At least one tab; tab ids are distinct and below `next`.
pub open spec fn tabs_ok(tabs: Seq<TabView>, next: u32) -> bool {
    &&& tabs.len() >= 1
    &&& forall|i: int, j: int|
        0 <= i < tabs.len() && 0 <= j < tabs.len() && i != j ==> (#[trigger] tabs[i]).id != (
        #[trigger] tabs[j]).id
    &&& forall|i: int| 0 <= i < tabs.len() ==> (#[trigger] tabs[i]).id < next
}

proof fn lemma_tabs_ok_update(tabs: Seq<TabView>, next: u32, i: int, t: TabView)
    requires
        tabs_ok(tabs, next),
        0 <= i < tabs.len(),
        t.id == tabs[i].id,
    ensures
        tabs_ok(tabs.update(i, t), next),
{
    let u = tabs.update(i, t);
    assert forall|a: int| 0 <= a < u.len() implies (#[trigger] u[a]).id == tabs[a].id by {}
}

proof fn lemma_tabs_ok_remove(tabs: Seq<TabView>, next: u32, k: int)
    requires
        tabs_ok(tabs, next),
        tabs.len() >= 2,
        0 <= k < tabs.len(),
    ensures
        tabs_ok(tabs.remove(k), next),
{
    let u = tabs.remove(k);
    assert forall|a: int| 0 <= a < u.len() implies (#[trigger] u[a]) == tabs[if a < k {
        a
    } else {
        a + 1
    }] by {}
    assert forall|a: int, b: int|
        0 <= a < u.len() && 0 <= b < u.len() && a != b implies (#[trigger] u[a]).id != (
        #[trigger] u[b]).id by {
        let a2 = if a < k {
            a
        } else {
            a + 1
        };
        let b2 = if b < k {
            b
        } else {
            b + 1
        };
        assert(u[a] == tabs[a2]);
        assert(u[b] == tabs[b2]);
    }
}

proof fn lemma_tabs_ok_push(tabs: Seq<TabView>, next: u32, t: TabView)
    requires
        tabs_ok(tabs, next),
        t.id == next,
        next < u32::MAX,
    ensures
        tabs_ok(tabs.push(t), (next + 1) as u32),
{
    let u = tabs.push(t);
    assert forall|a: int| 0 <= a < tabs.len() implies (#[trigger] u[a]) == tabs[a] by {}
    assert(u[tabs.len() as int] == t);
}

/// The text that a new bookmark puts in the status line.
pub open spec fn bookmark_added_text() -> Seq<char> {
    "Bookmark added"@
}

impl AppState {
    /// At least one tab; tab ids are distinct and below `next_tab_id`.
    pub open spec fn wf(self) -> bool {
        tabs_ok(self.tabs, self.next_tab_id)
    }

    /// The URL of the active tab (empty when no tab has the active id).
    pub open spec fn current_url(self) -> Seq<char> {
        let i = tab_position(self.tabs, self.active_tab);
        if i >= 0 {
            self.tabs[i].url
        } else {
            Seq::empty()
        }
    }

    /// After navigating the active tab to `url` at time `now`: the address
    /// bar shows `url`, a visit is recorded, and the active tab shows it.
    pub open spec fn navigate_to(self, url: Seq<char>, now: Seq<char>) -> AppState {
        let i = tab_position(self.tabs, self.active_tab);
        AppState {
            address_input: url,
            history: self.history.push(
                VisitView { id: self.next_record_id, title: url, url, visited_at: now },
            ),
            next_record_id: self.next_record_id.wrapping_add(1),
            tabs: if i >= 0 {
                self.tabs.update(i, self.tabs[i].navigated(url))
            } else {
                self.tabs
            },
            ..self
        }
    }

    /// After closing tab `id`. The last tab is never removed: it is cleared
    /// instead. Otherwise the tab with that id is removed (the first tab when
    /// none has it); when it was the active one, the tab before it (or the
    /// new first tab) becomes active and its URL goes to the address bar.
    pub open spec fn close_tab(self, id: u32) -> AppState {
        if self.tabs.len() <= 1 {
            if self.tabs.len() == 1 {
                AppState { tabs: self.tabs.update(0, TabView::fresh(self.tabs[0].id)), ..self }
            } else {
                self
            }
        } else {
            let p = tab_position(self.tabs, id);
            let idx = if p >= 0 {
                p
            } else {
                0
            };
            let tabs = self.tabs.remove(idx);
            if self.active_tab == id {
                let back = if idx >= 1 {
                    idx - 1
                } else {
                    0
                };
                let new_idx = if back <= tabs.len() - 1 {
                    back
                } else {
                    tabs.len() - 1
                };
                AppState {
                    tabs,
                    active_tab: tabs[new_idx].id,
                    address_input: tabs[new_idx].url,
                    ..self
                }
            } else {
                AppState { tabs, ..self }
            }
        }
    }

    /// The state after message `msg`, with `now` as the time of any record
    /// it creates.
    pub open spec fn step(self, msg: Message, now: Seq<char>) -> AppState {
        match msg {
            Message::AddressChanged(s) => AppState { address_input: s@, ..self },
            Message::Navigate => self.navigate_to(
                normalize_spec(self.address_input, self.search_engine),
                now,
            ),
            Message::NavigateTo(u) => self.navigate_to(u@, now),
            Message::Reload => if self.current_url().len() > 0 {
                self.navigate_to(self.current_url(), now)
            } else {
                self
            },
            Message::TabSelected(id) => {
                let i = tab_position(self.tabs, id);
                AppState {
                    active_tab: id,
                    address_input: if i >= 0 {
                        self.tabs[i].url
                    } else {
                        Seq::empty()
                    },
                    ..self
                }
            },
            Message::TabClosed(id) => self.close_tab(id),
            Message::NewTab => AppState {
                tabs: self.tabs.push(TabView::fresh(self.next_tab_id)),
                active_tab: self.next_tab_id,
                next_tab_id: (self.next_tab_id + 1) as u32,
                address_input: Seq::empty(),
                ..self
            },
            Message::PanelToggled(p) => AppState {
                panel: if self.panel == p {
                    BrowserPanel::Browse
                } else {
                    p
                },
                ..self
            },
            Message::BookmarkCurrent => {
                let url = self.current_url();
                if url.len() > 0 && !is_bookmarked(self.bookmarks, url) {
                    AppState {
                        bookmarks: self.bookmarks.push(
                            SavedBookmarkView {
                                id: self.next_record_id,
                                title: url,
                                url,
                                created_at: now,
                            },
                        ),
                        next_record_id: self.next_record_id.wrapping_add(1),
                        status_msg: Some(bookmark_added_text()),
                        ..self
                    }
                } else {
                    self
                }
            },
            Message::BookmarkRemoved(id) => AppState {
                bookmarks: without_saved_id(self.bookmarks, id),
                ..self
            },
            Message::HistoryCleared => AppState { history: Seq::empty(), ..self },
            Message::Noop => self,
        }
    }

    /// What the web engine has to do after message `msg`.
    pub open spec fn commands(self, msg: Message) -> Seq<CommandView> {
        match msg {
            Message::Navigate => seq![
                CommandView::Navigate(normalize_spec(self.address_input, self.search_engine)),
            ],
            Message::NavigateTo(u) => seq![CommandView::Navigate(u@)],
            Message::Reload => if self.current_url().len() > 0 {
                seq![CommandView::ReloadView, CommandView::Navigate(self.current_url())]
            } else {
                Seq::empty()
            },
            Message::TabClosed(_) => if self.tabs.len() == 1 {
                seq![CommandView::CreateView("tab-1"@)]
            } else {
                Seq::empty()
            },
            Message::NewTab => seq![
                CommandView::CreateView("tab-"@ + decimal_spec(self.next_tab_id as nat)),
            ],
            _ => Seq::empty(),
        }
    }
}

/// The application state: tabs, address bar, panels, bookmarks, history.
#[derive(Debug)]
pub struct BrowserApp {
    tabs: Vec<BrowserTab>,
    active_tab: u32,
    next_tab_id: u32,
    address_input: String,
    panel: BrowserPanel,
    bookmarks: Vec<Bookmark>,
    history: Vec<HistoryEntry>,
    downloads: Vec<DownloadEntry>,
    config: BrowserConfig,
    status_msg: Option<String>,
    records: BookmarkManager,
}

/// The views of a list of tabs.
pub open spec fn tab_views(v: Seq<BrowserTab>) -> Seq<TabView> {
    v.map_values(|t: BrowserTab| t@)
}

/// The views of a list of visits.
pub open spec fn visit_views(v: Seq<HistoryEntry>) -> Seq<VisitView> {
    v.map_values(|e: HistoryEntry| e@)
}

/// The views of a list of downloads.
pub open spec fn download_views(v: Seq<DownloadEntry>) -> Seq<DownloadView> {
    v.map_values(|d: DownloadEntry| DownloadView { filename: d.filename@, status: d.status })
}

impl View for BrowserApp {
    type V = AppState;

    closed spec fn view(&self) -> AppState {
        AppState {
            tabs: tab_views(self.tabs@),
            active_tab: self.active_tab,
            next_tab_id: self.next_tab_id,
            address_input: self.address_input@,
            panel: self.panel,
            bookmarks: saved_views(self.bookmarks@),
            history: visit_views(self.history@),
            downloads: download_views(self.downloads@),
            search_engine: self.config.search_engine@,
            status_msg: crate::model::opt_view(self.status_msg),
            next_record_id: self.records.next_id_spec(),
        }
    }
}

impl BrowserApp {
    /// A browser with one empty tab (id 1, active), nothing typed, no panel
    /// open, no bookmarks, history or downloads, using `config`.
    pub fn new(config: BrowserConfig) -> (res: Self)
        ensures
            res@.tabs == seq![TabView::fresh(1)],
            res@.active_tab == 1,
            res@.next_tab_id == 2,
            res@.address_input == Seq::<char>::empty(),
            res@.panel == BrowserPanel::Browse,
            res@.bookmarks == Seq::<SavedBookmarkView>::empty(),
            res@.history == Seq::<VisitView>::empty(),
            res@.downloads == Seq::<DownloadView>::empty(),
            res@.search_engine == config.search_engine@,
            res@.status_msg is None,
            res@.next_record_id == 1,
            res@.wf(),
    {
        let mut tabs: Vec<BrowserTab> = Vec::new();
        tabs.push(BrowserTab::new(1));
        let res = BrowserApp {
            tabs,
            active_tab: 1,
            next_tab_id: 2,
            address_input: String::new(),
            panel: BrowserPanel::Browse,
            bookmarks: Vec::new(),
            history: Vec::new(),
            downloads: Vec::new(),
            config,
            status_msg: None,
            records: BookmarkManager::new(),
        };
        assert(tab_views(res.tabs@) =~= seq![TabView::fresh(1)]);
        assert(saved_views(res.bookmarks@) =~= Seq::<SavedBookmarkView>::empty());
        assert(visit_views(res.history@) =~= Seq::<VisitView>::empty());
        assert(download_views(res.downloads@) =~= Seq::<DownloadView>::empty());
        res
    }

    // ── Accessors ────────────────────────────────────────────────────────────

    /// The open tabs, in tab-bar order.
    pub fn tabs(&self) -> (res: &Vec<BrowserTab>)
        ensures
            tab_views(res@) == self@.tabs,
    {
        &self.tabs
    }

    /// Id of the active tab.
    pub fn active_tab(&self) -> (res: u32)
        ensures
            res == self@.active_tab,
    {
        self.active_tab
    }

    /// Text of the address bar.
    pub fn address_input(&self) -> (res: &str)
        ensures
            res@ == self@.address_input,
    {
        self.address_input.as_str()
    }

    /// The open side panel.
    pub fn panel(&self) -> (res: BrowserPanel)
        ensures
            res == self@.panel,
    {
        self.panel
    }

    /// Saved bookmarks, oldest first.
    pub fn bookmarks(&self) -> (res: &Vec<Bookmark>)
        ensures
            saved_views(res@) == self@.bookmarks,
    {
        &self.bookmarks
    }

    /// Visited pages, oldest first.
    pub fn history(&self) -> (res: &Vec<HistoryEntry>)
        ensures
            visit_views(res@) == self@.history,
    {
        &self.history
    }

    /// Downloads, oldest first.
    pub fn downloads(&self) -> (res: &Vec<DownloadEntry>)
        ensures
            download_views(res@) == self@.downloads,
    {
        &self.downloads
    }

    /// The configuration in use.
    pub fn config(&self) -> (res: &BrowserConfig)
        ensures
            res.search_engine@ == self@.search_engine,
    {
        &self.config
    }

    /// The status line, if any.
    pub fn status_msg(&self) -> (res: Option<&str>)
        ensures
            res matches Some(s) ==> self@.status_msg == Some(s@),
            res is None ==> self@.status_msg is None,
    {
        match &self.status_msg {
            Some(s) => Some(s.as_str()),
            None => None,
        }
    }

    // ── Helpers ──────────────────────────────────────────────────────────────

    /// Position of the first tab with id `id`.
    fn position(&self, id: u32) -> (res: Option<usize>)
        ensures
            res matches Some(i) ==> tab_position(self@.tabs, id) == i,
            res is None ==> tab_position(self@.tabs, id) == -1,
    {
        let ghost tv = self@.tabs;
        let mut i: usize = 0;
        while i < self.tabs.len()
            invariant
                tv == tab_views(self.tabs@),
                i <= self.tabs@.len(),
                forall|j: int| 0 <= j < i ==> (#[trigger] tv[j]).id != id,
            decreases self.tabs@.len() - i,
        {
            if self.tabs[i].id == id {
                proof {
                    lemma_tab_position(tv, id, i as int);
                }
                return Some(i);
            }
            i = i + 1;
        }
        assert(!exists|k: int| is_first_tab(tv, id, k)) by {
            if exists|k: int| is_first_tab(tv, id, k) {
                let k = choose|k: int| is_first_tab(tv, id, k);
                assert(tv[k].id == id);
            }
        }
        None
    }

    /// The URL of the active tab (empty when no tab has the active id).
    pub fn current_url(&self) -> (res: &str)
        ensures
            res@ == self@.current_url(),
    {
        match self.position(self.active_tab) {
            Some(i) => self.tabs[i].url.as_str(),
            None => {
                proof {
                    reveal_strlit("");
                }
                ""
            },
        }
    }

    /// Navigates the active tab to `url` at time `now`.
    fn navigate_to(&mut self, url: String, now: &str) -> (res: EngineCommand)
        ensures
            final(self)@ == old(self)@.navigate_to(url@, now@),
            res@ == CommandView::Navigate(url@),
    {
        let ghost s = self@;
        self.address_input = url.clone();
        let entry = self.records.record_visit_at(url.as_str(), url.as_str(), now);
        let ghost hist = self.history@;
        self.history.push(entry);
        assert(visit_views(self.history@) =~= visit_views(hist).push(entry@));
        match self.position(self.active_tab) {
            Some(i) => {
                let mut tab = BrowserTab::new(self.tabs[i].id);
                tab.navigate(url.clone());
                let ghost before = self.tabs@;
                self.tabs.set(i, tab);
                assert(tab_views(self.tabs@) =~= tab_views(before).update(
                    i as int,
                    s.tabs[i as int].navigated(url@),
                ));
            },
            None => {},
        }
        EngineCommand::Navigate(url)
    }

    /// Closes tab `id` (see [`AppState::close_tab`]).
    fn close_tab(&mut self, id: u32) -> (res: Vec<EngineCommand>)
        ensures
            final(self)@ == old(self)@.close_tab(id),
            command_views(res@) == old(self)@.commands(Message::TabClosed(id)),
    {
        if self.tabs.len() <= 1 {
            if self.tabs.len() == 1 {
                let first_id = self.tabs[0].id;
                let ghost before = self.tabs@;
                self.tabs.set(0, BrowserTab::new(first_id));
                assert(tab_views(self.tabs@) =~= tab_views(before).update(
                    0,
                    TabView::fresh(first_id),
                ));
                let mut cmds: Vec<EngineCommand> = Vec::new();
                cmds.push(EngineCommand::CreateView(owned("tab-1")));
                assert(command_views(cmds@) =~= seq![CommandView::CreateView("tab-1"@)]);
                return cmds;
            }
            let cmds: Vec<EngineCommand> = Vec::new();
            assert(command_views(cmds@) =~= Seq::<CommandView>::empty());
            return cmds;
        }
        let idx = match self.position(id) {
            Some(i) => i,
            None => 0,
        };
        let ghost before = self.tabs@;
        let _closed = self.tabs.remove(idx);
        assert(tab_views(self.tabs@) =~= tab_views(before).remove(idx as int));
        if self.active_tab == id {
            let back = idx.saturating_sub(1);
            let last = self.tabs.len() - 1;
            let new_idx = if back <= last {
                back
            } else {
                last
            };
            self.active_tab = self.tabs[new_idx].id;
            self.address_input = self.tabs[new_idx].url.clone();
        }
        let cmds: Vec<EngineCommand> = Vec::new();
        assert(command_views(cmds@) =~= Seq::<CommandView>::empty());
        cmds
    }

    /// Handles `msg`, stamping any record it creates with `now`, and returns
    /// what the web engine has to do.
    pub fn update_at(&mut self, msg: Message, now: &str) -> (res: Vec<EngineCommand>)
        requires
            old(self)@.wf(),
            msg is NewTab ==> old(self)@.next_tab_id < u32::MAX,
        ensures
            final(self)@ == old(self)@.step(msg, now@),
            command_views(res@) == old(self)@.commands(msg),
            final(self)@.wf(),
    {
        let ghost s = self@;
        let ghost m = msg;
        proof {
            law_step_keeps_wf(s, m, now@);
        }
        let mut cmds: Vec<EngineCommand> = Vec::new();
        match msg {
            Message::AddressChanged(text) => {
                self.address_input = text;
            },
            Message::Navigate => {
                let url = normalize_url(self.address_input.as_str(), &self.config);
                let c = self.navigate_to(url, now);
                cmds.push(c);
            },
            Message::NavigateTo(url) => {
                let c = self.navigate_to(url.clone(), now);
                self.address_input = url;
                cmds.push(c);
            },
            Message::Reload => {
                let url = owned(self.current_url());
                if !url.as_str().is_empty() {
                    cmds.push(EngineCommand::ReloadView);
                    let c = self.navigate_to(url, now);
                    cmds.push(c);
                }
            },
            Message::TabSelected(id) => {
                self.active_tab = id;
                let url = match self.position(id) {
                    Some(i) => self.tabs[i].url.clone(),
                    None => String::new(),
                };
                self.address_input = url;
            },
            Message::TabClosed(id) => {
                cmds = self.close_tab(id);
            },
            Message::NewTab => {
                let id = self.next_tab_id;
                self.next_tab_id = id + 1;
                let ghost before = self.tabs@;
                self.tabs.push(BrowserTab::new(id));
                assert(tab_views(self.tabs@) =~= tab_views(before).push(TabView::fresh(id)));
                self.active_tab = id;
                self.address_input = String::new();
                let digits = decimal_string(id as u64);
                let view_id = concatenate("tab-", digits.as_str());
                cmds.push(EngineCommand::CreateView(view_id));
            },
            Message::PanelToggled(p) => {
                self.panel = if self.panel == p {
                    BrowserPanel::Browse
                } else {
                    p
                };
            },
            Message::BookmarkCurrent => {
                let url = owned(self.current_url());
                if !url.as_str().is_empty() {
                    match self.records.add_at(
                        self.bookmarks.as_slice(),
                        url.as_str(),
                        url.as_str(),
                        now,
                    ) {
                        Some(bm) => {
                            let ghost before = self.bookmarks@;
                            self.bookmarks.push(bm);
                            assert(saved_views(self.bookmarks@) =~= saved_views(before).push(
                                bm@,
                            ));
                            self.status_msg = Some(owned("Bookmark added"));
                        },
                        None => {},
                    }
                }
            },
            Message::BookmarkRemoved(id) => {
                BookmarkManager::remove(&mut self.bookmarks, id);
            },
            Message::HistoryCleared => {
                crate::history::clear(&mut self.history);
                assert(visit_views(self.history@) =~= Seq::<VisitView>::empty());
            },
            Message::Noop => {},
        }
        proof {
            if m is NewTab || m is Navigate || m is NavigateTo || m is Reload {
                assert(command_views(cmds@) =~= s.commands(m));
            } else if !(m is TabClosed) {
                assert(command_views(cmds@) =~= Seq::<CommandView>::empty());
            }
        }
        cmds
    }

    /// Handles `msg`, stamping any record it creates with the current time,
    /// and returns what the web engine has to do.
    pub fn update(&mut self, msg: Message) -> (res: Vec<EngineCommand>)
        requires
            old(self)@.wf(),
            msg is NewTab ==> old(self)@.next_tab_id < u32::MAX,
        ensures
            exists|now: Seq<char>|
                is_rfc3339_utc_text(now) && final(self)@ == #[trigger] old(self)@.step(msg, now),
            command_views(res@) == old(self)@.commands(msg),
            final(self)@.wf(),
    {
        let now = now_rfc3339();
        let ghost m = msg;
        let res = self.update_at(msg, now.as_str());
        assert(final(self)@ == old(self)@.step(m, now@));
        res
    }
}

// ── Laws ─────────────────────────────────────────────────────────────────────

/// Every message keeps the state well formed: there is always at least one
/// tab, and tab ids stay distinct and below the next id to hand out.
pub proof fn law_step_keeps_wf(s: AppState, msg: Message, now: Seq<char>)
    requires
        s.wf(),
        msg is NewTab ==> s.next_tab_id < u32::MAX,
    ensures
        s.step(msg, now).wf(),
{
    match msg {
        Message::Navigate => lemma_navigate_keeps_wf(
            s,
            normalize_spec(s.address_input, s.search_engine),
            now,
        ),
        Message::NavigateTo(u) => lemma_navigate_keeps_wf(s, u@, now),
        Message::Reload => lemma_navigate_keeps_wf(s, s.current_url(), now),
        Message::TabClosed(id) => {
            if s.tabs.len() <= 1 {
                lemma_tabs_ok_update(s.tabs, s.next_tab_id, 0, TabView::fresh(s.tabs[0].id));
            } else {
                let p = tab_position(s.tabs, id);
                if p >= 0 {
                    assert(is_first_tab(s.tabs, id, p));
                }
                lemma_tabs_ok_remove(s.tabs, s.next_tab_id, if p >= 0 {
                    p
                } else {
                    0
                });
            }
        },
        Message::NewTab => lemma_tabs_ok_push(s.tabs, s.next_tab_id, TabView::fresh(s.next_tab_id)),
        _ => {},
    }
}

/// Toggling a panel opens it when another one is shown, and closes it (back
/// to browsing) when it is shown; toggling the same panel twice from the
/// browsing view, or from that panel, returns to where it started.
pub proof fn law_panel_toggle(s: AppState, p: BrowserPanel, now: Seq<char>)
    ensures
        s.panel != p ==> s.step(Message::PanelToggled(p), now).panel == p,
        s.panel == p ==> s.step(Message::PanelToggled(p), now).panel == BrowserPanel::Browse,
        (s.panel == BrowserPanel::Browse || s.panel == p) ==> s.step(Message::PanelToggled(p), now).step(
            Message::PanelToggled(p),
            now,
        ).panel == s.panel,
{
}

/// Clearing the history leaves it empty and changes nothing else.
pub proof fn law_history_cleared(s: AppState, now: Seq<char>)
    ensures
        s.step(Message::HistoryCleared, now).history.len() == 0,
        s.step(Message::HistoryCleared, now) == (AppState { history: Seq::empty(), ..s }),
{
}

/// Navigating records exactly one visit, of the target URL, which the
/// active tab then shows.
pub proof fn law_navigate_records_visit(s: AppState, url: String, now: Seq<char>)
    requires
        s.wf(),
        tab_position(s.tabs, s.active_tab) >= 0,
    ensures
        s.step(Message::NavigateTo(url), now).history == s.history.push(
            VisitView { id: s.next_record_id, title: url@, url: url@, visited_at: now },
        ),
        s.step(Message::NavigateTo(url), now).current_url() == url@,
        s.step(Message::NavigateTo(url), now).address_input == url@,
{
    let i = tab_position(s.tabs, s.active_tab);
    assert(is_first_tab(s.tabs, s.active_tab, i));
    let t = s.step(Message::NavigateTo(url), now);
    assert(is_first_tab(t.tabs, t.active_tab, i));
    lemma_tab_position(t.tabs, t.active_tab, i);
}

/// Opening a new tab and closing it again gives back the same tabs, with
/// the last of them active.
pub proof fn law_new_tab_then_close(s: AppState, now: Seq<char>)
    requires
        s.wf(),
        s.next_tab_id < u32::MAX,
    ensures
        s.step(Message::NewTab, now).step(Message::TabClosed(s.next_tab_id), now).tabs == s.tabs,
        s.step(Message::NewTab, now).step(Message::TabClosed(s.next_tab_id), now).active_tab
            == s.tabs.last().id,
{
    let t = s.step(Message::NewTab, now);
    let id = s.next_tab_id;
    let k = s.tabs.len() as int;
    assert(t.tabs[k] == TabView::fresh(id));
    assert forall|j: int| 0 <= j < k implies (#[trigger] t.tabs[j]).id != id by {
        assert(t.tabs[j] == s.tabs[j]);
    }
    assert(is_first_tab(t.tabs, id, k));
    lemma_tab_position(t.tabs, id, k);
    assert(t.tabs.remove(k) =~= s.tabs);
}

proof fn lemma_navigate_keeps_wf(s: AppState, url: Seq<char>, now: Seq<char>)
    requires
        s.wf(),
    ensures
        s.navigate_to(url, now).wf(),
{
    let i = tab_position(s.tabs, s.active_tab);
    if i >= 0 {
        assert(is_first_tab(s.tabs, s.active_tab, i));
        lemma_tabs_ok_update(s.tabs, s.next_tab_id, i, s.tabs[i].navigated(url));
    }
}

/// Submitting the address bar loads, in the web view, the very URL that the
/// active tab then shows, that the address bar then holds and that the
/// history records: the normalised form of what was typed.
pub proof fn law_navigate_loads_what_tab_shows(s: AppState, now: Seq<char>)
    requires
        s.wf(),
        tab_position(s.tabs, s.active_tab) >= 0,
    ensures
        ({
            let t = s.step(Message::Navigate, now);
            &&& s.commands(Message::Navigate) == seq![CommandView::Navigate(t.current_url())]
            &&& t.current_url() == normalize_spec(s.address_input, s.search_engine)
            &&& t.address_input == t.current_url()
            &&& t.history.len() == s.history.len() + 1
            &&& t.history.last().url == t.current_url()
        }),
{
    let i = tab_position(s.tabs, s.active_tab);
    assert(is_first_tab(s.tabs, s.active_tab, i));
    let t = s.step(Message::Navigate, now);
    assert(is_first_tab(t.tabs, t.active_tab, i));
    lemma_tab_position(t.tabs, t.active_tab, i);
}

/// Bookmarking saves the page that the active tab shows, titled by its URL,
/// whatever the address bar holds; nothing is saved when no page is shown
/// or the page is already bookmarked.
pub proof fn law_bookmark_current_saves_shown_page(
    s: AppState,
    typed: Seq<char>,
    now: Seq<char>,
)
    ensures
        ({
            let url = s.current_url();
            let t = s.step(Message::BookmarkCurrent, now);
            &&& (url.len() > 0 && !is_bookmarked(s.bookmarks, url)) ==> {
                &&& t.bookmarks.len() == s.bookmarks.len() + 1
                &&& t.bookmarks.drop_last() == s.bookmarks
                &&& t.bookmarks.last().url == url
                &&& t.bookmarks.last().title == url
                &&& is_bookmarked(t.bookmarks, url)
            }
            &&& (url.len() == 0 || is_bookmarked(s.bookmarks, url)) ==> t.bookmarks == s.bookmarks
            &&& (AppState { address_input: typed, ..s }).step(
                Message::BookmarkCurrent,
                now,
            ).bookmarks == t.bookmarks
        }),
{
    let url = s.current_url();
    let t = s.step(Message::BookmarkCurrent, now);
    if url.len() > 0 && !is_bookmarked(s.bookmarks, url) {
        assert(t.bookmarks.drop_last() =~= s.bookmarks);
        assert(t.bookmarks[t.bookmarks.len() - 1].url == url);
    }
}

/// A new tab is empty and active, and the address bar shows its (empty)
/// URL, not the URL of the tab that was active before.
pub proof fn law_new_tab_clears_address(s: AppState, now: Seq<char>)
    requires
        s.wf(),
        s.next_tab_id < u32::MAX,
    ensures
        ({
            let t = s.step(Message::NewTab, now);
            &&& t.address_input == Seq::<char>::empty()
            &&& t.current_url() == t.address_input
            &&& t.active_tab == s.next_tab_id
            &&& t.tabs.len() == s.tabs.len() + 1
        }),
{
    let t = s.step(Message::NewTab, now);
    let id = s.next_tab_id;
    let k = s.tabs.len() as int;
    assert(t.tabs[k] == TabView::fresh(id));
    assert forall|j: int| 0 <= j < k implies (#[trigger] t.tabs[j]).id != id by {
        assert(t.tabs[j] == s.tabs[j]);
    }
    assert(is_first_tab(t.tabs, id, k));
    lemma_tab_position(t.tabs, id, k);
}

/// Selecting a tab puts its URL in the address bar.
pub proof fn law_tab_selected_shows_its_url(s: AppState, id: u32, now: Seq<char>)
    ensures
        ({
            let t = s.step(Message::TabSelected(id), now);
            &&& t.active_tab == id
            &&& t.address_input == t.current_url()
        }),
{
}

} // verus!
