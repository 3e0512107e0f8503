//! `BrowserController`: navigation and bookmark logic over a `BrowserModel`
//! and an injected `BookmarkStore`.

use vstd::prelude::*;

use crate::bookmark::{Bookmark, BookmarkStore, BookmarkView, has_id, views, without_id};
use crate::model::{opt_view, BrowserModel, HistoryEntry, ModelState};
use crate::navigation::is_absolute_url;
use crate::stamp::{is_rfc3339_utc_text, now_rfc3339};
use crate::text::{owned, str_eq};

verus! {

broadcast use vstd::string::group_string_axioms;

/// A navigation step requested through the API.
#[derive(Debug, Clone, Copy, PartialEq, Eq, Structural)]
pub enum NavigationDirection {
    Back,
    Forward,
    Reload,
}

impl NavigationDirection {
    /// The step that an API direction name asks for: `"back"`, `"forward"`,
    /// and reload for any other name.
    pub fn from_name(name: &str) -> (res: NavigationDirection)
        ensures
            name@ == "back"@ ==> res == NavigationDirection::Back,
            name@ == "forward"@ ==> res == NavigationDirection::Forward,
            name@ != "back"@ && name@ != "forward"@ ==> res == NavigationDirection::Reload,
    {
        proof {
            reveal_strlit("back");
            reveal_strlit("forward");
            assert("back"@.len() != "forward"@.len());
        }
        if str_eq(name, "back") {
            NavigationDirection::Back
        } else if str_eq(name, "forward") {
            NavigationDirection::Forward
        } else {
            NavigationDirection::Reload
        }
    }
}

/// The address shown when nothing is loaded.
pub open spec fn blank_page() -> Seq<char> {
    "about:blank"@
}

/// The model after navigating to `url`: loading starts and, the engine
/// being a stub, finishes at once without a title.
pub open spec fn open_url_spec(m: ModelState, url: Seq<char>) -> ModelState {
    m.set_loading(url).set_loaded(None)
}

/// The model after going back: one history entry earlier, which becomes the
/// current URL; unchanged at the first entry.
pub open spec fn back_spec(m: ModelState) -> ModelState {
    let h = m.history.back();
    if m.history.can_go_back() {
        ModelState { history: h, current_url: h.current(), ..m }
    } else {
        m
    }
}

/// The model after going forward: one history entry later, which becomes
/// the current URL; unchanged at the last entry.
pub open spec fn forward_spec(m: ModelState) -> ModelState {
    let h = m.history.forward();
    if m.history.can_go_forward() {
        ModelState { history: h, current_url: h.current(), ..m }
    } else {
        m
    }
}

/// The model after a reload: the current URL opened again; unchanged when
/// there is none.
pub open spec fn reload_spec(m: ModelState) -> ModelState {
    match m.current_url {
        Some(u) => open_url_spec(m, u),
        None => m,
    }
}

/// Business-logic layer of the browser.
pub struct BrowserController<S: BookmarkStore> {
    model: BrowserModel,
    bookmarks: S,
}

impl<S: BookmarkStore> BrowserController<S> {
    /// The browser state.
    pub closed spec fn model(&self) -> ModelState {
        self.model@
    }

    /// The stored bookmarks.
    pub closed spec fn stored(&self) -> Seq<BookmarkView> {
        self.bookmarks.bookmarks()
    }

    /// A controller with a blank model, backed by `bookmarks`.
    pub fn new(bookmarks: S) -> (res: Self)
        ensures
            res.model() == ModelState::blank(),
            res.stored() == bookmarks.bookmarks(),
    {
        BrowserController { model: BrowserModel::new(), bookmarks }
    }

    // ── Navigation ───────────────────────────────────────────────────────────

    /// Navigates to `url`: the model records the load (current URL, history)
    /// and, the engine being a stub, marks it loaded at once.
    pub fn open_url(&mut self, url: &str)
        ensures
            final(self).model() == open_url_spec(old(self).model(), url@),
            final(self).stored() == old(self).stored(),
    {
        self.model.set_loading(url);
        self.model.set_loaded(None);
    }

    /// Navigates backward; the new current URL, or `None` at the beginning
    /// of the history.
    pub fn navigate_back(&mut self) -> (res: Option<String>)
        ensures
            final(self).model() == back_spec(old(self).model()),
            res is Some <==> old(self).model().history.can_go_back(),
            res is None ==> final(self).model() == old(self).model(),
            opt_view(res) == (if old(self).model().history.can_go_back() {
                final(self).model().current_url
            } else {
                None
            }),
            final(self).stored() == old(self).stored(),
    {
        let url = self.model.history.back();
        match &url {
            Some(u) => {
                self.model.current_url = Some(u.clone());
            },
            None => {},
        }
        url
    }

    /// Navigates forward; the new current URL, or `None` at the end of the
    /// history.
    pub fn navigate_forward(&mut self) -> (res: Option<String>)
        ensures
            final(self).model() == forward_spec(old(self).model()),
            res is Some <==> old(self).model().history.can_go_forward(),
            res is None ==> final(self).model() == old(self).model(),
            opt_view(res) == (if old(self).model().history.can_go_forward() {
                final(self).model().current_url
            } else {
                None
            }),
            final(self).stored() == old(self).stored(),
    {
        let url = self.model.history.forward();
        match &url {
            Some(u) => {
                self.model.current_url = Some(u.clone());
            },
            None => {},
        }
        url
    }

    /// Reloads the current page (opens the current URL again).
    pub fn reload(&mut self)
        ensures
            final(self).model() == reload_spec(old(self).model()),
            final(self).stored() == old(self).stored(),
    {
        let url = crate::model::clone_opt(&self.model.current_url);
        match url {
            Some(u) => self.open_url(u.as_str()),
            None => {},
        }
    }

    /// Performs a navigation step and returns the current URL afterwards as
    /// the step reports it: back and forward return what they moved to
    /// (`None` when they could not move), reload returns the current URL.
    pub fn navigate(&mut self, direction: NavigationDirection) -> (res: Option<String>)
        ensures
            direction == NavigationDirection::Back ==> final(self).model() == back_spec(
                old(self).model(),
            ) && opt_view(res) == (if old(self).model().history.can_go_back() {
                final(self).model().current_url
            } else {
                None
            }),
            direction == NavigationDirection::Forward ==> final(self).model() == forward_spec(
                old(self).model(),
            ) && opt_view(res) == (if old(self).model().history.can_go_forward() {
                final(self).model().current_url
            } else {
                None
            }),
            direction == NavigationDirection::Reload ==> final(self).model() == reload_spec(
                old(self).model(),
            ) && opt_view(res) == final(self).model().current_url,
            final(self).stored() == old(self).stored(),
    {
        match direction {
            NavigationDirection::Back => self.navigate_back(),
            NavigationDirection::Forward => self.navigate_forward(),
            NavigationDirection::Reload => {
                self.reload();
                self.snapshot().current_url
            },
        }
    }

    // ── State accessors ──────────────────────────────────────────────────────

    /// A snapshot of the current model state.
    pub fn snapshot(&self) -> (res: BrowserModel)
        ensures
            res@ == self.model(),
    {
        self.model.clone()
    }

    /// The navigation history as a list of [`HistoryEntry`] items: one per
    /// history entry, oldest first, each naming the URL visited and stamped
    /// with the current time, since the history keeps no timestamps.
    pub fn history(&self) -> (res: Vec<HistoryEntry>)
        ensures
            res@.len() == self.model().history.entries.len(),
            forall|i: int|
                0 <= i < res@.len() ==> (#[trigger] res@[i]).url@ == self.model().history.entries[i],
            forall|i: int| 0 <= i < res@.len() ==> is_rfc3339_utc_text((#[trigger] res@[i]).visited_at@),
            forall|i: int, j: int|
                0 <= i < res@.len() && 0 <= j < res@.len() ==> (#[trigger] res@[i]).visited_at@ == (
                #[trigger] res@[j]).visited_at@,
    {
        let now = now_rfc3339();
        let n = self.model.history.len();
        let mut res: Vec<HistoryEntry> = Vec::new();
        let mut i: usize = 0;
        while i < n
            invariant
                i <= n,
                n == self.model().history.entries.len(),
                res@.len() == i,
                is_rfc3339_utc_text(now@),
                forall|k: int| 0 <= k < i ==> (#[trigger] res@[k]).url@ == self.model().history.entries[k],
                forall|k: int| 0 <= k < i ==> (#[trigger] res@[k]).visited_at@ == now@,
            decreases n - i,
        {
            let url = owned(self.model.history.entry(i));
            res.push(HistoryEntry { url, visited_at: now.clone() });
            i = i + 1;
        }
        res
    }

    // ── Bookmarks ────────────────────────────────────────────────────────────

    /// Adds a bookmark to the store and returns it; `None`, with nothing
    /// stored, when the store could not make one.
    pub fn add_bookmark(&mut self, title: &str, url: &str) -> (res: Option<Bookmark>)
        ensures
            res matches Some(b) ==> b@.title == title@ && b@.url == url@ && final(self).stored()
                == old(self).stored().push(b@),
            res is None ==> final(self).stored() == old(self).stored(),
            final(self).model() == old(self).model(),
    {
        self.bookmarks.add(title, url)
    }

    /// Removes the bookmarks with id `id`; true when there was one.
    pub fn remove_bookmark(&mut self, id: &str) -> (res: bool)
        ensures
            res == has_id(old(self).stored(), id@),
            final(self).stored() == without_id(old(self).stored(), id@),
            final(self).model() == old(self).model(),
    {
        self.bookmarks.remove(id)
    }

    /// All bookmarks, oldest first.
    pub fn list_bookmarks(&self) -> (res: Vec<Bookmark>)
        ensures
            views(res@) == self.stored(),
    {
        self.bookmarks.list()
    }
}

// ── Laws ─────────────────────────────────────────────────────────────────────

/// Reloading keeps the current URL.
pub proof fn law_reload_keeps_url(m: ModelState)
    ensures
        reload_spec(m).current_url == m.current_url,
{
}

/// After opening `a` and then an absolute URL `b`, going back leads to `a`
/// when `a` was absolute too, and going forward again leads to `b`.
pub proof fn law_open_then_back(m: ModelState, a: Seq<char>, b: Seq<char>)
    requires
        m.history.wf(),
        is_absolute_url(a),
        is_absolute_url(b),
    ensures
        back_spec(open_url_spec(open_url_spec(m, a), b)).current_url == Some(a),
        forward_spec(back_spec(open_url_spec(open_url_spec(m, a), b))).current_url == Some(b),
{
}

/// Going back and then forward returns to the same page and history.
pub proof fn law_back_then_forward(m: ModelState)
    requires
        m.history.wf(),
        m.history.can_go_back(),
        m.current_url == m.history.current(),
    ensures
        forward_spec(back_spec(m)) == m,
{
    crate::navigation::law_back_then_forward(m.history);
}

} // verus!
