//! Records of the desktop browser application: tabs, bookmarks with numeric
//! ids, visited pages, and downloads.

use vstd::prelude::*;

use crate::text::owned;

verus! {

broadcast use vstd::string::group_string_axioms;

/// The fields of a saved bookmark, as mathematical values.
pub struct SavedBookmarkView {
    pub id: i64,
    pub title: Seq<char>,
    pub url: Seq<char>,
    pub created_at: Seq<char>,
}

/// A bookmark saved by the application.
#[derive(Debug)]
pub struct Bookmark {
    /// Numeric identifier, unique within a session.
    pub id: i64,
    /// Human-readable title.
    pub title: String,
    /// Bookmarked URL.
    pub url: String,
    /// When the bookmark was created (RFC 3339, UTC).
    pub created_at: String,
}

impl View for Bookmark {
    type V = SavedBookmarkView;

    open spec fn view(&self) -> SavedBookmarkView {
        SavedBookmarkView {
            id: self.id,
            title: self.title@,
            url: self.url@,
            created_at: self.created_at@,
        }
    }
}

impl Clone for Bookmark {
    fn clone(&self) -> (res: Self)
        ensures
            res@ == self@,
    {
        Bookmark {
            id: self.id,
            title: self.title.clone(),
            url: self.url.clone(),
            created_at: self.created_at.clone(),
        }
    }
}

/// The fields of a visit, as mathematical values.
pub struct VisitView {
    pub id: i64,
    pub title: Seq<char>,
    pub url: Seq<char>,
    pub visited_at: Seq<char>,
}

/// A visited page, kept in full (duplicates included).
#[derive(Debug)]
pub struct HistoryEntry {
    /// Numeric identifier, unique within a session.
    pub id: i64,
    /// Page title.
    pub title: String,
    /// The URL that was visited.
    pub url: String,
    /// When it was visited (RFC 3339, UTC).
    pub visited_at: String,
}

impl View for HistoryEntry {
    type V = VisitView;

    open spec fn view(&self) -> VisitView {
        VisitView {
            id: self.id,
            title: self.title@,
            url: self.url@,
            visited_at: self.visited_at@,
        }
    }
}

impl Clone for HistoryEntry {
    fn clone(&self) -> (res: Self)
        ensures
            res@ == self@,
    {
        HistoryEntry {
            id: self.id,
            title: self.title.clone(),
            url: self.url.clone(),
            visited_at: self.visited_at.clone(),
        }
    }
}

/// The fields of a tab, as mathematical values.
pub struct TabView {
    pub id: u32,
    pub title: Seq<char>,
    pub url: Seq<char>,
}

/// The title of a tab that shows no page.
pub open spec fn new_tab_title() -> Seq<char> {
    "New Tab"@
}

/// A browser tab.
#[derive(Debug)]
pub struct BrowserTab {
    /// Tab identifier.
    pub id: u32,
    /// Title shown in the tab bar.
    pub title: String,
    /// The URL shown in the tab; empty when the tab shows no page.
    pub url: String,
}

impl View for BrowserTab {
    type V = TabView;

    open spec fn view(&self) -> TabView {
        TabView { id: self.id, title: self.title@, url: self.url@ }
    }
}

impl TabView {
    /// A fresh tab: no page, the new-tab title.
    pub open spec fn fresh(id: u32) -> TabView {
        TabView { id, title: new_tab_title(), url: Seq::empty() }
    }

    /// The tab after navigating to `url`, which also serves as its title.
    pub open spec fn navigated(self, url: Seq<char>) -> TabView {
        TabView { id: self.id, title: url, url }
    }
}

impl BrowserTab {
    /// A tab with id `id` that shows no page.
    pub fn new(id: u32) -> (res: BrowserTab)
        ensures
            res@ == TabView::fresh(id),
    {
        BrowserTab { id, title: owned("New Tab"), url: String::new() }
    }

    /// Shows `url` in this tab; the URL serves as title until the page
    /// reports one.
    pub fn navigate(&mut self, url: String)
        ensures
            final(self)@ == old(self)@.navigated(url@),
    {
        self.title = url.clone();
        self.url = url;
    }

    /// Clears the tab back to an empty new tab, keeping its id.
    pub fn reset(&mut self)
        ensures
            final(self)@ == TabView::fresh(old(self)@.id),
    {
        self.title = owned("New Tab");
        self.url = String::new();
    }
}

/// State of a download.
#[derive(Debug, Clone, Copy, PartialEq, Eq, Structural)]
pub enum DownloadStatus {
    InProgress,
    Finished,
    Failed,
}

impl DownloadStatus {
    /// Label shown in the downloads panel.
    pub fn label(&self) -> (res: &'static str)
        ensures
            *self == DownloadStatus::InProgress ==> res@ == "Downloading"@,
            *self == DownloadStatus::Finished ==> res@ == "Done"@,
            *self == DownloadStatus::Failed ==> res@ == "Failed"@,
    {
        match self {
            DownloadStatus::InProgress => "Downloading",
            DownloadStatus::Finished => "Done",
            DownloadStatus::Failed => "Failed",
        }
    }
}

/// A file being downloaded or downloaded.
#[derive(Debug)]
pub struct DownloadEntry {
    /// Name of the file.
    pub filename: String,
    /// Where the download stands.
    pub status: DownloadStatus,
}

} // verus!
