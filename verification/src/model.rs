//! `BrowserModel`: the observable state of the browser (current URL, page
//! title, loading flag, navigation history, bookmark snapshot).

use vstd::prelude::*;

use crate::bookmark::{views, Bookmark, BookmarkView};
use crate::navigation::{is_absolute_url, is_valid_url, HistoryState, NavigationHistory};
use crate::text::owned;

verus! {

broadcast use vstd::string::group_string_axioms;

/// The view of an optional string.
pub open spec fn opt_view(o: Option<String>) -> Option<Seq<char>> {
    match o {
        Some(s) => Some(s@),
        None => None,
    }
}

/// A clone of an optional string.
pub fn clone_opt(o: &Option<String>) -> (res: Option<String>)
    ensures
        opt_view(res) == opt_view(*o),
{
    match o {
        Some(s) => Some(s.clone()),
        None => None,
    }
}

/// The state of the browser, as mathematical values.
pub struct ModelState {
    pub current_url: Option<Seq<char>>,
    pub current_title: Option<Seq<char>>,
    pub loading: bool,
    pub history: HistoryState,
    pub bookmarks: Seq<BookmarkView>,
}

impl ModelState {
    /// A blank browser: nothing loaded, empty history, no bookmarks.
    pub open spec fn blank() -> ModelState {
        ModelState {
            current_url: None,
            current_title: None,
            loading: false,
            history: HistoryState::empty(),
            bookmarks: Seq::empty(),
        }
    }

    /// After `url` started loading: it is the current URL, the spinner runs,
    /// and it enters the history when it is an absolute URL.
    pub open spec fn set_loading(self, url: Seq<char>) -> ModelState {
        ModelState {
            current_url: Some(url),
            loading: true,
            history: if is_absolute_url(url) {
                self.history.push(url)
            } else {
                self.history
            },
            ..self
        }
    }

    /// After the page finished loading with `title`.
    pub open spec fn set_loaded(self, title: Option<Seq<char>>) -> ModelState {
        ModelState { loading: false, current_title: title, ..self }
    }

    /// After a load failed: the spinner stops, the URL stays.
    pub open spec fn set_load_error(self) -> ModelState {
        ModelState { loading: false, ..self }
    }

    /// After the current URL changed to `url` (e.g. a redirect).
    pub open spec fn set_current_url(self, url: Seq<char>) -> ModelState {
        ModelState { current_url: Some(url), ..self }
    }
}

/// Observable state of the browser.
#[derive(Debug)]
pub struct BrowserModel {
    /// The URL that is currently loaded (or being loaded).
    pub current_url: Option<String>,
    /// The `<title>` of the current page.
    pub current_title: Option<String>,
    /// Whether a page is currently being loaded.
    pub loading: bool,
    /// Linear navigation history (back / forward stack).
    pub history: NavigationHistory,
    /// Snapshot of bookmarks (refreshed by the controller when needed).
    pub bookmarks: Vec<Bookmark>,
}

impl View for BrowserModel {
    type V = ModelState;

    open spec fn view(&self) -> ModelState {
        ModelState {
            current_url: opt_view(self.current_url),
            current_title: opt_view(self.current_title),
            loading: self.loading,
            history: self.history@,
            bookmarks: views(self.bookmarks@),
        }
    }
}

impl Clone for BrowserModel {
    fn clone(&self) -> (res: Self)
        ensures
            res@ == self@,
    {
        let bookmarks = self.bookmarks.clone();
        assert(views(bookmarks@) =~= views(self.bookmarks@));
        BrowserModel {
            current_url: clone_opt(&self.current_url),
            current_title: clone_opt(&self.current_title),
            loading: self.loading,
            history: self.history.clone(),
            bookmarks,
        }
    }
}

impl Default for BrowserModel {
    fn default() -> (res: Self)
        ensures
            res@ == ModelState::blank(),
    {
        let res = BrowserModel {
            current_url: None,
            current_title: None,
            loading: false,
            history: NavigationHistory::new(),
            bookmarks: Vec::new(),
        };
        assert(views(res.bookmarks@) =~= Seq::<BookmarkView>::empty());
        res
    }
}

impl BrowserModel {
    /// A blank browser state.
    pub fn new() -> (res: Self)
        ensures
            res@ == ModelState::blank(),
    {
        Self::default()
    }

    /// Records that `url` has started loading.
    pub fn set_loading(&mut self, url: &str)
        ensures
            final(self)@ == old(self)@.set_loading(url@),
    {
        self.current_url = Some(owned(url));
        self.loading = true;
        if is_valid_url(url) {
            self.history.push(url);
        }
    }

    /// Records that the current page finished loading.
    pub fn set_loaded(&mut self, title: Option<String>)
        ensures
            final(self)@ == old(self)@.set_loaded(opt_view(title)),
    {
        self.loading = false;
        self.current_title = title;
    }

    /// Records a load failure (stop the spinner, keep the URL).
    pub fn set_load_error(&mut self)
        ensures
            final(self)@ == old(self)@.set_load_error(),
    {
        self.loading = false;
    }

    /// Updates the current URL (e.g. after a redirect).
    pub fn set_current_url(&mut self, url: &str)
        ensures
            final(self)@ == old(self)@.set_current_url(url@),
    {
        self.current_url = Some(owned(url));
    }
}

/// A single item in the browser's navigation history as reported to the UI
/// and API layers.
#[derive(Debug)]
pub struct HistoryEntry {
    /// The URL that was visited.
    pub url: String,
    /// RFC 3339 timestamp of the visit.
    pub visited_at: String,
}

impl Clone for HistoryEntry {
    fn clone(&self) -> (res: Self)
        ensures
            res.url@ == self.url@,
            res.visited_at@ == self.visited_at@,
    {
        HistoryEntry { url: self.url.clone(), visited_at: self.visited_at.clone() }
    }
}

// ── Laws ─────────────────────────────────────────────────────────────────────

/// A load that fails keeps the URL the user asked for, so that the user sees
/// what failed; a load that succeeds keeps it too.
pub proof fn law_load_keeps_url(m: ModelState, url: Seq<char>, title: Option<Seq<char>>)
    ensures
        m.set_loading(url).set_load_error().current_url == Some(url),
        m.set_loading(url).set_loaded(title).current_url == Some(url),
        !m.set_loading(url).set_load_error().loading,
        !m.set_loading(url).set_loaded(title).loading,
        m.set_loading(url).loading,
{
}

/// Loading an absolute URL makes it the current history entry; loading
/// anything else leaves the history as it was.
pub proof fn law_loading_records_history(m: ModelState, url: Seq<char>)
    requires
        m.history.wf(),
    ensures
        is_absolute_url(url) ==> m.set_loading(url).history.current() == Some(url),
        !is_absolute_url(url) ==> m.set_loading(url).history == m.history,
{
}

/// A finished load shows exactly the title it reports, whatever the page
/// before it showed: no title when it reports none.
pub proof fn law_loaded_title_is_reported(
    m: ModelState,
    url: Seq<char>,
    earlier: Option<Seq<char>>,
    title: Option<Seq<char>>,
)
    ensures
        m.set_loaded(title).current_title == title,
        m.set_loaded(earlier).set_loading(url).set_loaded(title).current_title == title,
        m.set_loaded(title).current_url == m.current_url,
        m.set_loaded(title).history == m.history,
{
}

} // verus!
