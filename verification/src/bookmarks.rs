//! Bookmark and visit records of the application, with numeric ids drawn
//! from a monotonically increasing counter.

use vstd::prelude::*;

use crate::app_model::{Bookmark, HistoryEntry, SavedBookmarkView, VisitView};
use crate::stamp::{is_rfc3339_utc_text, now_rfc3339};
use crate::text::{owned, str_eq};

verus! {

broadcast use vstd::string::group_string_axioms;

/// The views of a list of saved bookmarks.
pub open spec fn saved_views(v: Seq<Bookmark>) -> Seq<SavedBookmarkView> {
    v.map_values(|b: Bookmark| b@)
}

/// Some saved bookmark has URL `url`.
pub open spec fn is_bookmarked(s: Seq<SavedBookmarkView>, url: Seq<char>) -> bool {
    exists|i: int| 0 <= i < s.len() && #[trigger] s[i].url == url
}

/// `s` without the bookmarks whose id is `id`, the others in order.
pub open spec fn without_saved_id(s: Seq<SavedBookmarkView>, id: i64) -> Seq<SavedBookmarkView>
    decreases s.len(),
{
    if s.len() == 0 {
        s
    } else if s.last().id == id {
        without_saved_id(s.drop_last(), id)
    } else {
        without_saved_id(s.drop_last(), id).push(s.last())
    }
}

/// Source of record ids: each id handed out is the previous one plus one
/// (wrapping at the end of the `i64` range), starting at 1. Each manager
/// counts on its own; the application holds a
/// single manager for all its bookmarks and visits.
#[derive(Debug)]
pub struct BookmarkManager {
    next_id: i64,
}

impl BookmarkManager {
    /// The id that the next record gets.
    pub closed spec fn next_id_spec(&self) -> i64 {
        self.next_id
    }

    /// A manager whose first id is 1.
    pub fn new() -> (res: Self)
        ensures
            res.next_id_spec() == 1,
    {
        BookmarkManager { next_id: 1 }
    }

    /// Hands out the next id.
    pub fn next_id(&mut self) -> (res: i64)
        ensures
            res == old(self).next_id_spec(),
            final(self).next_id_spec() == old(self).next_id_spec().wrapping_add(1),
    {
        let id = self.next_id;
        self.next_id = self.next_id.wrapping_add(1);
        id
    }

    /// A bookmark of `url` titled `title`, created at `now`; `None`, with no
    /// id used, when `url` is already bookmarked in `existing`.
    pub fn add_at(&mut self, existing: &[Bookmark], title: &str, url: &str, now: &str) -> (res:
        Option<Bookmark>)
        ensures
            res is None <==> is_bookmarked(saved_views(existing@), url@),
            res is None ==> final(self).next_id_spec() == old(self).next_id_spec(),
            res matches Some(b) ==> b@ == (SavedBookmarkView {
                id: old(self).next_id_spec(),
                title: title@,
                url: url@,
                created_at: now@,
            }) && final(self).next_id_spec() == old(self).next_id_spec().wrapping_add(1),
    {
        let mut i: usize = 0;
        while i < existing.len()
            invariant
                i <= existing@.len(),
                forall|k: int| 0 <= k < i ==> (#[trigger] existing@[k]).url@ != url@,
            decreases existing@.len() - i,
        {
            if str_eq(existing[i].url.as_str(), url) {
                assert(saved_views(existing@)[i as int].url == url@);
                return None;
            }
            i = i + 1;
        }
        assert(!is_bookmarked(saved_views(existing@), url@)) by {
            if is_bookmarked(saved_views(existing@), url@) {
                let k = choose|k: int|
                    0 <= k < saved_views(existing@).len() && #[trigger] saved_views(
                        existing@,
                    )[k].url == url@;
                assert(existing@[k].url@ == url@);
            }
        }
        let id = self.next_id();
        Some(Bookmark { id, title: owned(title), url: owned(url), created_at: owned(now) })
    }

    /// A bookmark of `url` titled `title`, created now; `None`, with no id
    /// used, when `url` is already bookmarked in `existing`.
    pub fn add(&mut self, existing: &[Bookmark], title: &str, url: &str) -> (res: Option<Bookmark>)
        ensures
            res is None <==> is_bookmarked(saved_views(existing@), url@),
            res is None ==> final(self).next_id_spec() == old(self).next_id_spec(),
            res matches Some(b) ==> b@.id == old(self).next_id_spec() && b@.title == title@
                && b@.url == url@ && is_rfc3339_utc_text(b@.created_at)
                && final(self).next_id_spec() == old(self).next_id_spec().wrapping_add(1),
    {
        let now = now_rfc3339();
        self.add_at(existing, title, url, now.as_str())
    }

    /// Removes every bookmark with id `id` from `bookmarks`, keeping the
    /// others in order.
    pub fn remove(bookmarks: &mut Vec<Bookmark>, id: i64)
        ensures
            saved_views(final(bookmarks)@) == without_saved_id(saved_views(old(bookmarks)@), id),
    {
        let ghost s = saved_views(bookmarks@);
        let mut kept: Vec<Bookmark> = Vec::new();
        let mut i: usize = 0;
        let n = bookmarks.len();
        while i < n
            invariant
                n == bookmarks@.len(),
                s == saved_views(bookmarks@),
                i <= n,
                saved_views(kept@) == without_saved_id(s.take(i as int), id),
            decreases n - i,
        {
            assert(s.take(i + 1).drop_last() =~= s.take(i as int));
            assert(s.take(i + 1).last() == bookmarks@[i as int]@);
            if bookmarks[i].id != id {
                let ghost before = kept@;
                kept.push(bookmarks[i].clone());
                assert(saved_views(kept@) =~= saved_views(before).push(bookmarks@[i as int]@));
            }
            i = i + 1;
        }
        assert(s.take(n as int) =~= s);
        *bookmarks = kept;
    }

    /// A visit of `url` titled `title` at time `now`.
    pub fn record_visit_at(&mut self, title: &str, url: &str, now: &str) -> (res: HistoryEntry)
        ensures
            res@ == (VisitView {
                id: old(self).next_id_spec(),
                title: title@,
                url: url@,
                visited_at: now@,
            }),
            final(self).next_id_spec() == old(self).next_id_spec().wrapping_add(1),
    {
        let id = self.next_id();
        HistoryEntry { id, title: owned(title), url: owned(url), visited_at: owned(now) }
    }

    /// A visit of `url` titled `title`, now. Every visit is a new entry;
    /// repeated visits are all kept.
    pub fn record_visit(&mut self, title: &str, url: &str) -> (res: HistoryEntry)
        ensures
            res@.id == old(self).next_id_spec(),
            res@.title == title@,
            res@.url == url@,
            is_rfc3339_utc_text(res@.visited_at),
            final(self).next_id_spec() == old(self).next_id_spec().wrapping_add(1),
    {
        let now = now_rfc3339();
        self.record_visit_at(title, url, now.as_str())
    }
}

// ── Laws ─────────────────────────────────────────────────────────────────────

/// Consecutive ids differ: an id comes back only after the whole `i64`
/// range has been handed out.
pub proof fn law_ids_advance(n: i64)
    ensures
        n.wrapping_add(1) != n,
        n < i64::MAX ==> n.wrapping_add(1) == n + 1,
{
}

/// After removing an id, no bookmark with that id is left, and a bookmark
/// with another id stays.
pub proof fn law_remove_by_id(s: Seq<SavedBookmarkView>, id: i64)
    ensures
        forall|i: int| 0 <= i < without_saved_id(s, id).len() ==> (#[trigger] without_saved_id(s, id)[i]).id != id,
        forall|i: int| 0 <= i < s.len() && (#[trigger] s[i]).id != id ==> without_saved_id(s, id).contains(s[i]),
        (forall|i: int| 0 <= i < s.len() ==> (#[trigger] s[i]).id != id) ==> without_saved_id(s, id)
            == s,
    decreases s.len(),
{
    if s.len() > 0 {
        law_remove_by_id(s.drop_last(), id);
        let r = without_saved_id(s.drop_last(), id);
        assert forall|i: int| 0 <= i < without_saved_id(s, id).len() implies (#[trigger] without_saved_id(s, id)[i]).id != id by {
            if i < r.len() {
                assert(without_saved_id(s, id)[i] == r[i]);
            }
        }
        assert forall|i: int| 0 <= i < s.len() && (#[trigger] s[i]).id != id implies without_saved_id(s, id).contains(s[i]) by {
            if i < s.len() - 1 {
                assert(s.drop_last()[i] == s[i]);
                let j = choose|j: int| 0 <= j < r.len() && r[j] == s.drop_last()[i];
                if s.last().id != id {
                    assert(r.push(s.last())[j] == r[j]);
                }
            } else {
                assert(r.push(s.last())[r.len() as int] == s.last());
            }
        }
        if forall|i: int| 0 <= i < s.len() ==> (#[trigger] s[i]).id != id {
            assert forall|i: int| 0 <= i < s.drop_last().len() implies (#[trigger] s.drop_last()[i]).id != id by {
                assert(s.drop_last()[i] == s[i]);
            }
            assert(s[s.len() - 1].id != id);
            assert(s.drop_last().push(s.last()) =~= s);
        }
    }
}

} // verus!
