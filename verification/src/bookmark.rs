//! The bookmark domain type and the bookmark repository.

use vstd::prelude::*;

use crate::stamp::{is_rfc3339_utc_text, is_uuid_v4_text, new_uuid_v4, now_rfc3339};
use crate::text::{owned, str_eq};

verus! {

broadcast use vstd::string::group_string_axioms;

// ── Bookmark ─────────────────────────────────────────────────────────────────

/// The fields of a bookmark, as character sequences.
pub struct BookmarkView {
    pub id: Seq<char>,
    pub title: Seq<char>,
    pub url: Seq<char>,
    pub created_at: Seq<char>,
}

/// A saved browser bookmark.
#[derive(Debug)]
pub struct Bookmark {
    /// Unique identifier (a random UUID).
    pub id: String,
    /// Human-readable title.
    pub title: String,
    /// Bookmarked URL.
    pub url: String,
    /// When the bookmark was created (RFC 3339, UTC).
    pub created_at: String,
}

impl View for Bookmark {
    type V = BookmarkView;

    open spec fn view(&self) -> BookmarkView {
        BookmarkView {
            id: self.id@,
            title: self.title@,
            url: self.url@,
            created_at: self.created_at@,
        }
    }
}

impl Clone for Bookmark {
    fn clone(&self) -> (res: Self)
        ensures
            res@ == self@,
    {
        Bookmark {
            id: self.id.clone(),
            title: self.title.clone(),
            url: self.url.clone(),
            created_at: self.created_at.clone(),
        }
    }
}

impl Bookmark {
    /// A new bookmark with a random id and the current time; `None` when
    /// the random source cannot supply an id.
    pub fn new(title: &str, url: &str) -> (res: Option<Bookmark>)
        ensures
            res matches Some(b) ==> b@.title == title@ && b@.url == url@ && is_uuid_v4_text(b@.id)
                && is_rfc3339_utc_text(b@.created_at),
    {
        match new_uuid_v4() {
            Some(id) => Some(
                Bookmark { id, title: owned(title), url: owned(url), created_at: now_rfc3339() },
            ),
            None => None,
        }
    }
}

// ── Specifications over lists of bookmarks ───────────────────────────────────

/// The views of a list of bookmarks.
pub open spec fn views(v: Seq<Bookmark>) -> Seq<BookmarkView> {
    v.map_values(|b: Bookmark| b@)
}

/// Some bookmark in `s` has id `id`.
pub open spec fn has_id(s: Seq<BookmarkView>, id: Seq<char>) -> bool {
    exists|i: int| 0 <= i < s.len() && #[trigger] s[i].id == id
}

/// `s` without the bookmarks whose id is `id`, the others in order.
pub open spec fn without_id(s: Seq<BookmarkView>, id: Seq<char>) -> Seq<BookmarkView>
    decreases s.len(),
{
    if s.len() == 0 {
        s
    } else if s.last().id == id {
        without_id(s.drop_last(), id)
    } else {
        without_id(s.drop_last(), id).push(s.last())
    }
}

/// The first bookmark of `s` whose URL is `url`.
pub open spec fn first_with_url(s: Seq<BookmarkView>, url: Seq<char>) -> Option<BookmarkView>
    decreases s.len(),
{
    if s.len() == 0 {
        None
    } else if s[0].url == url {
        Some(s[0])
    } else {
        first_with_url(s.drop_first(), url)
    }
}

// ── BookmarkStore ────────────────────────────────────────────────────────────

/// Persistence abstraction for bookmarks (repository pattern).
///
/// A store keeps its bookmarks in insertion order; `bookmarks` is that list.
pub trait BookmarkStore {
    /// The stored bookmarks, oldest first.
    spec fn bookmarks(&self) -> Seq<BookmarkView>;

    /// Persists a new bookmark and returns it (with its generated id);
    /// `None`, with nothing stored, when no bookmark could be made.
    fn add(&mut self, title: &str, url: &str) -> (res: Option<Bookmark>)
        ensures
            res matches Some(b) ==> b@.title == title@ && b@.url == url@ && final(self).bookmarks()
                == old(self).bookmarks().push(b@),
            res is None ==> final(self).bookmarks() == old(self).bookmarks(),
    ;

    /// Removes the bookmarks with id `id`; true when there was one.
    fn remove(&mut self, id: &str) -> (res: bool)
        ensures
            res == has_id(old(self).bookmarks(), id@),
            final(self).bookmarks() == without_id(old(self).bookmarks(), id@),
    ;

    /// All bookmarks, oldest first.
    fn list(&self) -> (res: Vec<Bookmark>)
        ensures
            views(res@) == self.bookmarks(),
    ;

    /// The first bookmark whose URL is `url`, if any.
    fn find_by_url(&self, url: &str) -> (res: Option<Bookmark>)
        ensures
            res matches Some(b) ==> first_with_url(self.bookmarks(), url@) == Some(b@),
            res is None ==> first_with_url(self.bookmarks(), url@) is None,
    ;
}

// ── InMemoryBookmarkStore ────────────────────────────────────────────────────

/// In-memory [`BookmarkStore`] backed by a `Vec<Bookmark>`.
pub struct InMemoryBookmarkStore {
    bookmarks: Vec<Bookmark>,
}

impl InMemoryBookmarkStore {
    /// An empty store.
    pub fn new() -> (res: Self)
        ensures
            res.bookmarks() == Seq::<BookmarkView>::empty(),
    {
        let res = InMemoryBookmarkStore { bookmarks: Vec::new() };
        assert(views(res.bookmarks@) =~= Seq::<BookmarkView>::empty());
        res
    }
}

impl Default for InMemoryBookmarkStore {
    fn default() -> (res: Self)
        ensures
            res.bookmarks() == Seq::<BookmarkView>::empty(),
    {
        Self::new()
    }
}

impl BookmarkStore for InMemoryBookmarkStore {
    closed spec fn bookmarks(&self) -> Seq<BookmarkView> {
        views(self.bookmarks@)
    }

    /// Appends a new bookmark with a random id and the current time; `None`,
    /// with nothing stored, when the random source cannot supply an id.
    fn add(&mut self, title: &str, url: &str) -> (res: Option<Bookmark>)
        ensures
            res matches Some(b) ==> is_uuid_v4_text(b@.id) && is_rfc3339_utc_text(b@.created_at),
    {
        match Bookmark::new(title, url) {
            Some(b) => {
                let ghost before = self.bookmarks@;
                self.bookmarks.push(b.clone());
                assert(views(self.bookmarks@) =~= views(before).push(b@));
                Some(b)
            },
            None => None,
        }
    }

    fn remove(&mut self, id: &str) -> (res: bool) {
        let ghost s = views(self.bookmarks@);
        let mut kept: Vec<Bookmark> = Vec::new();
        let mut found = false;
        let mut i: usize = 0;
        let n = self.bookmarks.len();
        while i < n
            invariant
                n == self.bookmarks@.len(),
                s == views(self.bookmarks@),
                i <= n,
                views(kept@) == without_id(s.take(i as int), id@),
                found == has_id(s.take(i as int), id@),
            decreases n - i,
        {
            let b = &self.bookmarks[i];
            assert(s.take(i + 1).drop_last() =~= s.take(i as int));
            assert(s.take(i + 1).last() == b@);
            if str_eq(b.id.as_str(), id) {
                found = true;
                assert(s.take(i + 1)[i as int].id == id@);
            } else {
                let ghost before = kept@;
                kept.push(b.clone());
                assert(views(kept@) =~= views(before).push(b@));
                assert(has_id(s.take(i + 1), id@) ==> has_id(s.take(i as int), id@)) by {
                    if has_id(s.take(i + 1), id@) {
                        let j = choose|j: int|
                            0 <= j < i + 1 && #[trigger] s.take(i + 1)[j].id == id@;
                        assert(s.take(i as int)[j] == s.take(i + 1)[j]);
                    }
                }
            }
            assert(has_id(s.take(i as int), id@) ==> has_id(s.take(i + 1), id@)) by {
                if has_id(s.take(i as int), id@) {
                    let j = choose|j: int| 0 <= j < i && #[trigger] s.take(i as int)[j].id == id@;
                    assert(s.take(i + 1)[j] == s.take(i as int)[j]);
                }
            }
            i = i + 1;
        }
        assert(s.take(n as int) =~= s);
        self.bookmarks = kept;
        found
    }

    fn list(&self) -> (res: Vec<Bookmark>) {
        let res = self.bookmarks.clone();
        assert(views(res@) =~= views(self.bookmarks@));
        res
    }

    fn find_by_url(&self, url: &str) -> (res: Option<Bookmark>) {
        let ghost s = views(self.bookmarks@);
        let mut i: usize = 0;
        let n = self.bookmarks.len();
        assert(s.skip(0) =~= s);
        while i < n
            invariant
                n == self.bookmarks@.len(),
                s == views(self.bookmarks@),
                i <= n,
                first_with_url(s, url@) == first_with_url(s.skip(i as int), url@),
            decreases n - i,
        {
            assert(s.skip(i as int)[0] == self.bookmarks@[i as int]@);
            if str_eq(self.bookmarks[i].url.as_str(), url) {
                return Some(self.bookmarks[i].clone());
            }
            assert(s.skip(i as int).drop_first() =~= s.skip(i + 1));
            i = i + 1;
        }
        assert(s.skip(n as int) =~= Seq::<BookmarkView>::empty());
        None
    }
}

// ── Laws ─────────────────────────────────────────────────────────────────────

/// A bookmark just added is listed under its id.
pub proof fn law_added_is_present(s: Seq<BookmarkView>, b: BookmarkView)
    ensures
        has_id(s.push(b), b.id),
        s.push(b).last() == b,
{
    assert(s.push(b)[s.len() as int].id == b.id);
}

/// After removing an id, no bookmark with that id is left.
pub proof fn law_removed_is_absent(s: Seq<BookmarkView>, id: Seq<char>)
    ensures
        !has_id(without_id(s, id), id),
    decreases s.len(),
{
    if s.len() > 0 {
        law_removed_is_absent(s.drop_last(), id);
        let r = without_id(s.drop_last(), id);
        if s.last().id != id {
            assert forall|i: int| 0 <= i < r.push(s.last()).len() implies #[trigger] r.push(
                s.last(),
            )[i].id != id by {
                if i < r.len() {
                    assert(r.push(s.last())[i] == r[i]);
                }
            }
        }
    }
}

/// Removing an id that no bookmark has changes nothing.
pub proof fn law_remove_absent_is_noop(s: Seq<BookmarkView>, id: Seq<char>)
    requires
        !has_id(s, id),
    ensures
        without_id(s, id) == s,
    decreases s.len(),
{
    if s.len() > 0 {
        assert(!has_id(s.drop_last(), id)) by {
            if has_id(s.drop_last(), id) {
                let j = choose|j: int| 0 <= j < s.drop_last().len() && #[trigger] s.drop_last()[j].id == id;
                assert(s[j] == s.drop_last()[j]);
            }
        }
        law_remove_absent_is_noop(s.drop_last(), id);
        assert(s[s.len() - 1] == s.last());
        assert(s.drop_last().push(s.last()) =~= s);
    }
}

/// Removing an id keeps every bookmark with another id, in order: the
/// bookmarks left are exactly those of `s` whose id differs.
pub proof fn law_remove_keeps_others(s: Seq<BookmarkView>, id: Seq<char>)
    ensures
        forall|i: int| 0 <= i < without_id(s, id).len() ==> (#[trigger] without_id(s, id)[i]).id != id,
        forall|i: int| 0 <= i < without_id(s, id).len() ==> s.contains(#[trigger] without_id(s, id)[i]),
        forall|i: int| 0 <= i < s.len() && (#[trigger] s[i]).id != id ==> without_id(s, id).contains(s[i]),
    decreases s.len(),
{
    law_removed_is_absent(s, id);
    if s.len() > 0 {
        law_remove_keeps_others(s.drop_last(), id);
        let r = without_id(s.drop_last(), id);
        assert forall|i: int| 0 <= i < without_id(s, id).len() implies s.contains(
            #[trigger] without_id(s, id)[i],
        ) by {
            if s.last().id == id || i < r.len() {
                assert(without_id(s, id)[i] == r[i]);
                let j = choose|j: int| 0 <= j < s.drop_last().len() && s.drop_last()[j] == r[i];
                assert(s[j] == s.drop_last()[j]);
            } else {
                assert(without_id(s, id)[i] == s.last());
                assert(s[s.len() - 1] == s.last());
            }
        }
        assert forall|i: int| 0 <= i < s.len() && (#[trigger] s[i]).id != id implies without_id(
            s,
            id,
        ).contains(s[i]) by {
            if i < s.len() - 1 {
                assert(s.drop_last()[i] == s[i]);
                let j = choose|j: int| 0 <= j < r.len() && r[j] == s.drop_last()[i];
                if s.last().id != id {
                    assert(r.push(s.last())[j] == r[j]);
                }
            } else {
                assert(s[i] == s.last());
                assert(r.push(s.last())[r.len() as int] == s.last());
            }
        }
    }
}

/// Looking up the URL of a bookmark just added finds a bookmark with that
/// URL: the added one, unless an earlier bookmark has the same URL.
pub proof fn law_find_after_add(s: Seq<BookmarkView>, b: BookmarkView)
    ensures
        first_with_url(s.push(b), b.url) matches Some(f) && f.url == b.url,
        first_with_url(s, b.url) is None ==> first_with_url(s.push(b), b.url) == Some(b),
        first_with_url(s, b.url) is Some ==> first_with_url(s.push(b), b.url) == first_with_url(s, b.url),
    decreases s.len(),
{
    if s.len() == 0 {
        assert(s.push(b)[0] == b);
    } else {
        assert(s.push(b).drop_first() =~= s.drop_first().push(b));
        assert(s.push(b)[0] == s[0]);
        law_find_after_add(s.drop_first(), b);
    }
}

/// A bookmark that `first_with_url` finds is stored and has the URL asked
/// for, and no earlier bookmark has that URL.
pub proof fn law_find_is_first(s: Seq<BookmarkView>, url: Seq<char>)
    ensures
        first_with_url(s, url) matches Some(f) ==> f.url == url && s.contains(f),
        first_with_url(s, url) is None ==> forall|i: int| 0 <= i < s.len() ==> (#[trigger] s[i]).url != url,
    decreases s.len(),
{
    if s.len() > 0 {
        law_find_is_first(s.drop_first(), url);
        if s[0].url != url {
            if let Some(f) = first_with_url(s, url) {
                let j = choose|j: int| 0 <= j < s.drop_first().len() && s.drop_first()[j] == f;
                assert(s[j + 1] == f);
            } else {
                assert forall|i: int| 0 <= i < s.len() implies (#[trigger] s[i]).url != url by {
                    if i > 0 {
                        assert(s[i] == s.drop_first()[i - 1]);
                    }
                }
            }
        } else {
            assert(s[0] == s[0]);
        }
    }
}

} // verus!
