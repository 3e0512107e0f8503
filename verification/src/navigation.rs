//! Linear back/forward navigation history and the check that decides which
//! addresses enter it.

use vstd::prelude::*;

use crate::text::{chars_of, owned};

verus! {

broadcast use vstd::string::group_string_axioms;

// ── URL check ────────────────────────────────────────────────────────────────

/// An ASCII letter.
pub open spec fn is_ascii_alpha(c: char) -> bool {
    ('a' <= c <= 'z') || ('A' <= c <= 'Z')
}

/// A character allowed after the first one of a URL scheme (RFC 3986):
/// letter, digit, `+`, `-` or `.`.
pub open spec fn is_scheme_char(c: char) -> bool {
    is_ascii_alpha(c) || ('0' <= c <= '9') || c == '+' || c == '-' || c == '.'
}

/// `s` is an absolute URL: it starts with a scheme (a letter followed by
/// letters, digits, `+`, `-` or `.`) and a `:`.
pub open spec fn is_absolute_url(s: Seq<char>) -> bool {
    exists|k: int|
        #![trigger s[k]]
        1 <= k < s.len() && s[k] == ':' && is_ascii_alpha(s[0]) && forall|j: int|
            1 <= j < k ==> is_scheme_char(#[trigger] s[j])
}

fn is_scheme_char_exec(c: char) -> (res: bool)
    ensures
        res == is_scheme_char(c),
{
    ('a' <= c && c <= 'z') || ('A' <= c && c <= 'Z') || ('0' <= c && c <= '9') || c == '+' || c
        == '-' || c == '.'
}

/// Whether `s` is an absolute URL (scheme followed by `:`).
pub fn is_valid_url(s: &str) -> (res: bool)
    ensures
        res == is_absolute_url(s@),
{
    let x = chars_of(s);
    if x.len() == 0 {
        return false;
    }
    let first = x[0];
    if !(('a' <= first && first <= 'z') || ('A' <= first && first <= 'Z')) {
        return false;
    }
    let mut i: usize = 1;
    while i < x.len() && is_scheme_char_exec(x[i])
        invariant
            x@ == s@,
            1 <= i <= x@.len(),
            forall|j: int| 1 <= j < i ==> is_scheme_char(#[trigger] x@[j]),
        decreases x@.len() - i,
    {
        i = i + 1;
    }
    if i < x.len() && x[i] == ':' {
        assert(s@[i as int] == ':');
        true
    } else {
        assert(!is_absolute_url(s@)) by {
            if is_absolute_url(s@) {
                let k = choose|k: int|
                    #![trigger s@[k]]
                    1 <= k < s@.len() && s@[k] == ':' && is_ascii_alpha(s@[0]) && forall|j: int|
                        1 <= j < k ==> is_scheme_char(#[trigger] s@[j]);
                if k < i {
                    assert(is_scheme_char(x@[k]));
                } else if k > i {
                    assert(is_scheme_char(s@[i as int]));
                }
            }
        }
        false
    }
}

// ── History model ────────────────────────────────────────────────────────────

/// The state of a navigation history: the visited addresses and the
/// position of the current one.
pub struct HistoryState {
    pub entries: Seq<Seq<char>>,
    pub cursor: int,
}

impl HistoryState {
    /// The cursor points at an entry, or is zero when there is none.
    pub open spec fn wf(self) -> bool {
        if self.entries.len() == 0 {
            self.cursor == 0
        } else {
            0 <= self.cursor < self.entries.len()
        }
    }

    /// The empty history.
    pub open spec fn empty() -> HistoryState {
        HistoryState { entries: Seq::empty(), cursor: 0 }
    }

    /// The address of the current entry.
    pub open spec fn current(self) -> Option<Seq<char>> {
        if self.entries.len() == 0 {
            None
        } else {
            Some(self.entries[self.cursor])
        }
    }

    /// There is an entry before the current one.
    pub open spec fn can_go_back(self) -> bool {
        self.cursor > 0
    }

    /// There is an entry after the current one.
    pub open spec fn can_go_forward(self) -> bool {
        self.entries.len() > 0 && self.cursor < self.entries.len() - 1
    }

    /// After visiting `url`: the entries after the current one are dropped,
    /// `url` is appended and becomes current.
    pub open spec fn push(self, url: Seq<char>) -> HistoryState {
        let kept = if self.entries.len() == 0 {
            Seq::empty()
        } else {
            self.entries.take(self.cursor + 1)
        };
        HistoryState { entries: kept.push(url), cursor: kept.len() as int }
    }

    /// After going back: one entry earlier, when there is one.
    pub open spec fn back(self) -> HistoryState {
        if self.can_go_back() {
            HistoryState { entries: self.entries, cursor: self.cursor - 1 }
        } else {
            self
        }
    }

    /// After going forward: one entry later, when there is one.
    pub open spec fn forward(self) -> HistoryState {
        if self.can_go_forward() {
            HistoryState { entries: self.entries, cursor: self.cursor + 1 }
        } else {
            self
        }
    }
}

/// Linear navigation history (back / forward stack).
#[derive(Debug)]
pub struct NavigationHistory {
    entries: Vec<String>,
    cursor: usize,
}

impl View for NavigationHistory {
    type V = HistoryState;

    closed spec fn view(&self) -> HistoryState {
        HistoryState {
            entries: self.entries@.map_values(|s: String| s@),
            cursor: self.cursor as int,
        }
    }
}

impl NavigationHistory {
    #[verifier::type_invariant]
    closed spec fn inv(self) -> bool {
        self@.wf()
    }

    /// An empty history.
    pub fn new() -> (res: Self)
        ensures
            res@ == HistoryState::empty(),
    {
        let res = NavigationHistory { entries: Vec::new(), cursor: 0 };
        assert(res@.entries =~= Seq::<Seq<char>>::empty());
        res
    }

    /// Number of entries.
    pub fn len(&self) -> (res: usize)
        ensures
            res == self@.entries.len(),
    {
        self.entries.len()
    }

    /// The address of entry `i` (oldest first).
    pub fn entry(&self, i: usize) -> (res: &str)
        requires
            i < self@.entries.len(),
        ensures
            res@ == self@.entries[i as int],
    {
        self.entries[i].as_str()
    }

    /// Whether there are no entries.
    pub fn is_empty(&self) -> (res: bool)
        ensures
            res == (self@.entries.len() == 0),
    {
        self.entries.len() == 0
    }

    /// Whether there is an entry before the current one.
    pub fn can_go_back(&self) -> (res: bool)
        ensures
            res == self@.can_go_back(),
    {
        self.cursor > 0
    }

    /// Whether there is an entry after the current one.
    pub fn can_go_forward(&self) -> (res: bool)
        ensures
            res == self@.can_go_forward(),
    {
        proof {
            use_type_invariant(self);
        }
        self.entries.len() > 0 && self.cursor < self.entries.len() - 1
    }

    /// The current address, if any.
    pub fn current(&self) -> (res: Option<String>)
        ensures
            res matches Some(u) ==> self@.current() == Some(u@),
            res is None ==> self@.current() is None,
    {
        proof {
            use_type_invariant(self);
        }
        if self.entries.len() == 0 {
            None
        } else {
            Some(self.entries[self.cursor].clone())
        }
    }

    /// Records a visit to `url`: drops the entries after the current one,
    /// appends `url` and makes it current.
    pub fn push(&mut self, url: &str)
        ensures
            final(self)@ == old(self)@.push(url@),
    {
        proof {
            use_type_invariant(&*self);
        }
        let ghost old_state = self@;
        let mut taken = NavigationHistory::new();
        std::mem::swap(&mut taken, self);
        proof {
            use_type_invariant(&taken);
        }
        let NavigationHistory { entries: mut entries, cursor } = taken;
        if entries.len() > 0 {
            entries.truncate(cursor + 1);
        }
        let ghost kept = entries@.map_values(|s: String| s@);
        entries.push(owned(url));
        let new_cursor = entries.len() - 1;
        *self = NavigationHistory { entries, cursor: new_cursor };
        assert(self@.entries =~= old_state.push(url@).entries) by {
            assert(kept =~= (if old_state.entries.len() == 0 {
                Seq::<Seq<char>>::empty()
            } else {
                old_state.entries.take(old_state.cursor + 1)
            }));
        }
    }

    /// Goes back one entry and returns the new current address; `None`
    /// (and no change) at the first entry.
    pub fn back(&mut self) -> (res: Option<String>)
        ensures
            final(self)@ == old(self)@.back(),
            res is Some == old(self)@.can_go_back(),
            res matches Some(u) ==> final(self)@.current() == Some(u@),
    {
        proof {
            use_type_invariant(&*self);
        }
        if self.cursor > 0 {
            self.cursor = self.cursor - 1;
            Some(self.entries[self.cursor].clone())
        } else {
            None
        }
    }

    /// Goes forward one entry and returns the new current address; `None`
    /// (and no change) at the last entry.
    pub fn forward(&mut self) -> (res: Option<String>)
        ensures
            final(self)@ == old(self)@.forward(),
            res is Some == old(self)@.can_go_forward(),
            res matches Some(u) ==> final(self)@.current() == Some(u@),
    {
        proof {
            use_type_invariant(&*self);
        }
        if self.entries.len() > 0 && self.cursor < self.entries.len() - 1 {
            self.cursor = self.cursor + 1;
            Some(self.entries[self.cursor].clone())
        } else {
            None
        }
    }
}

impl Clone for NavigationHistory {
    fn clone(&self) -> (res: Self)
        ensures
            res@ == self@,
    {
        proof {
            use_type_invariant(self);
        }
        let entries = self.entries.clone();
        assert(entries@.map_values(|s: String| s@) =~= self.entries@.map_values(|s: String| s@));
        NavigationHistory { entries, cursor: self.cursor }
    }
}

// ── Laws ─────────────────────────────────────────────────────────────────────

/// Going back and then forward returns to the same entry, with the same
/// entries kept.
pub proof fn law_back_then_forward(h: HistoryState)
    requires
        h.wf(),
        h.can_go_back(),
    ensures
        h.back().forward() == h,
        h.back().wf(),
{
}

/// Going forward and then back returns to the same entry.
pub proof fn law_forward_then_back(h: HistoryState)
    requires
        h.wf(),
        h.can_go_forward(),
    ensures
        h.forward().back() == h,
        h.forward().wf(),
{
}

/// Visiting an address makes it current, leaves nothing to go forward to,
/// and keeps the history well formed.
pub proof fn law_push_current(h: HistoryState, url: Seq<char>)
    requires
        h.wf(),
    ensures
        h.push(url).wf(),
        h.push(url).current() == Some(url),
        !h.push(url).can_go_forward(),
{
}

/// Going back after visiting an address leads to the entry that was current
/// before the visit, and going forward again to the visited address.
pub proof fn law_push_then_back(h: HistoryState, url: Seq<char>)
    requires
        h.wf(),
        h.entries.len() > 0,
    ensures
        h.push(url).can_go_back(),
        h.push(url).back().current() == h.current(),
        h.push(url).back().forward().current() == Some(url),
{
}

/// A visit keeps every entry up to the current one and adds exactly one.
pub proof fn law_push_keeps_past(h: HistoryState, url: Seq<char>)
    requires
        h.wf(),
    ensures
        h.entries.len() == 0 ==> h.push(url).entries.len() == 1,
        h.entries.len() > 0 ==> h.push(url).entries.len() == h.cursor + 2,
        forall|i: int| 0 <= i <= h.cursor && i < h.entries.len() ==> h.push(url).entries[i] == h.entries[i],
{
}

} // verus!
