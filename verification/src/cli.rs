//! Command-line interface: the commands, what each one does to a
//! controller, and the lines it prints; and the port settings of the daemon.

use vstd::prelude::*;

use crate::bookmark::{has_id, without_id, views, Bookmark, BookmarkStore, BookmarkView};
use crate::controller::{open_url_spec, BrowserController};
use crate::model::HistoryEntry;
use crate::stamp::is_rfc3339_utc_text;
use crate::text::{chars_of, concatenate, owned, push_str};

verus! {

broadcast use vstd::string::group_string_axioms;

/// The `fs-browser` command line.
#[derive(Debug)]
pub struct Cli {
    pub command: Command,
}

/// Top-level commands.
#[derive(Debug)]
pub enum Command {
    /// Run as daemon (gRPC server + REST API).
    Daemon,
    /// Open a URL.
    Open { url: String },
    /// Show navigation history.
    History,
    /// Manage bookmarks.
    Bookmarks { action: BookmarkAction },
}

/// Bookmark sub-commands.
#[derive(Debug)]
pub enum BookmarkAction {
    /// List all bookmarks.
    List,
    /// Add a bookmark.
    Add { title: String, url: String },
    /// Remove a bookmark by ID.
    Remove { id: String },
}

// ── Output ───────────────────────────────────────────────────────────────────

/// The separator between the parts of a listed item.
pub open spec fn sep() -> Seq<char> {
    " — "@
}

/// How a history entry is listed: time, separator, URL.
pub open spec fn history_line(visited_at: Seq<char>, url: Seq<char>) -> Seq<char> {
    visited_at + sep() + url
}

/// How a bookmark is listed: `[id] title — url`.
pub open spec fn bookmark_line(b: BookmarkView) -> Seq<char> {
    "["@ + b.id + "] "@ + b.title + sep() + b.url
}

/// The views of printed lines.
pub open spec fn line_views(v: Seq<String>) -> Seq<Seq<char>> {
    v.map_values(|s: String| s@)
}

fn bookmark_text(b: &Bookmark) -> (res: String)
    ensures
        res@ == bookmark_line(b@),
{
    let mut s = owned("[");
    push_str(&mut s, b.id.as_str());
    push_str(&mut s, "] ");
    push_str(&mut s, b.title.as_str());
    push_str(&mut s, " — ");
    push_str(&mut s, b.url.as_str());
    s
}

fn history_text(e: &HistoryEntry) -> (res: String)
    ensures
        res@ == history_line(e.visited_at@, e.url@),
{
    let mut s = e.visited_at.clone();
    push_str(&mut s, " — ");
    push_str(&mut s, e.url.as_str());
    s
}

/// Runs a command other than `Daemon` against `ctrl` and returns the lines
/// to print.
pub fn run_command<S: BookmarkStore>(ctrl: &mut BrowserController<S>, cmd: Command) -> (res: Vec<
    String,
>)
    requires
        !(cmd is Daemon),
    ensures
        match cmd {
            Command::Daemon => false,
            Command::Open { url } => {
                &&& final(ctrl).model() == open_url_spec(old(ctrl).model(), url@)
                &&& final(ctrl).stored() == old(ctrl).stored()
                &&& line_views(res@) == seq!["Opened: "@ + url@]
            },
            Command::History => {
                let entries = old(ctrl).model().history.entries;
                let n = entries.len();
                &&& final(ctrl).model() == old(ctrl).model()
                &&& final(ctrl).stored() == old(ctrl).stored()
                &&& n == 0 ==> line_views(res@) == seq!["No history."@]
                &&& n > 0 ==> exists|t: Seq<char>|
                    is_rfc3339_utc_text(t) && #[trigger] line_views(res@) == Seq::new(
                        n,
                        |i: int| history_line(t, entries[i]),
                    )
            },
            Command::Bookmarks { action: BookmarkAction::List } => {
                &&& final(ctrl).model() == old(ctrl).model()
                &&& final(ctrl).stored() == old(ctrl).stored()
                &&& old(ctrl).stored().len() == 0 ==> line_views(res@) == seq!["No bookmarks."@]
                &&& old(ctrl).stored().len() > 0 ==> line_views(res@) == old(ctrl).stored().map_values(
                    |b: BookmarkView| bookmark_line(b),
                )
            },
            Command::Bookmarks { action: BookmarkAction::Add { title, url } } => {
                let b = final(ctrl).stored().last();
                &&& final(ctrl).model() == old(ctrl).model()
                &&& final(ctrl).stored() == old(ctrl).stored() ==> line_views(res@) == seq![
                    "Bookmark could not be added."@,
                ]
                &&& final(ctrl).stored() != old(ctrl).stored() ==> {
                    &&& final(ctrl).stored() == old(ctrl).stored().push(b)
                    &&& b.title == title@
                    &&& b.url == url@
                    &&& line_views(res@) == seq!["Bookmark added: "@ + bookmark_line(b)]
                }
            },
            Command::Bookmarks { action: BookmarkAction::Remove { id } } => {
                &&& final(ctrl).model() == old(ctrl).model()
                &&& final(ctrl).stored() == without_id(old(ctrl).stored(), id@)
                &&& has_id(old(ctrl).stored(), id@) ==> line_views(res@) == seq![
                    "Bookmark "@ + id@ + " removed."@,
                ]
                &&& !has_id(old(ctrl).stored(), id@) ==> line_views(res@) == seq![
                    "Bookmark "@ + id@ + " not found."@,
                ]
            },
        },
{
    let mut lines: Vec<String> = Vec::new();
    match cmd {
        Command::Daemon => {},
        Command::Open { url } => {
            ctrl.open_url(url.as_str());
            lines.push(concatenate("Opened: ", url.as_str()));
            assert(line_views(lines@) =~= seq!["Opened: "@ + url@]);
        },
        Command::History => {
            let hist = ctrl.history();
            if hist.len() == 0 {
                lines.push(owned("No history."));
                assert(line_views(lines@) =~= seq!["No history."@]);
            } else {
                let ghost t = hist@[0].visited_at@;
                let ghost entries = ctrl.model().history.entries;
                let mut i: usize = 0;
                while i < hist.len()
                    invariant
                        i <= hist@.len(),
                        hist@.len() > 0,
                        t == hist@[0].visited_at@,
                        lines@.len() == i,
                        forall|k: int| 0 <= k < hist@.len() ==> (#[trigger] hist@[k]).url@ == entries[k],
                        forall|k: int, j: int|
                            0 <= k < hist@.len() && 0 <= j < hist@.len() ==> (#[trigger] hist@[k]).visited_at@
                                == (#[trigger] hist@[j]).visited_at@,
                        forall|k: int| 0 <= k < i ==> (#[trigger] lines@[k])@ == history_line(t, entries[k]),
                    decreases hist@.len() - i,
                {
                    assert(hist@[i as int].visited_at@ == hist@[0].visited_at@);
                    lines.push(history_text(&hist[i]));
                    i = i + 1;
                }
                assert(line_views(lines@) =~= Seq::new(
                    hist@.len(),
                    |k: int| history_line(t, entries[k]),
                ));
            }
        },
        Command::Bookmarks { action } => match action {
            BookmarkAction::List => {
                let list = ctrl.list_bookmarks();
                if list.len() == 0 {
                    lines.push(owned("No bookmarks."));
                    assert(line_views(lines@) =~= seq!["No bookmarks."@]);
                } else {
                    let mut i: usize = 0;
                    while i < list.len()
                        invariant
                            i <= list@.len(),
                            lines@.len() == i,
                            forall|k: int| 0 <= k < i ==> (#[trigger] lines@[k])@ == bookmark_line(
                                list@[k]@,
                            ),
                        decreases list@.len() - i,
                    {
                        lines.push(bookmark_text(&list[i]));
                        i = i + 1;
                    }
                    assert(line_views(lines@) =~= views(list@).map_values(
                        |b: BookmarkView| bookmark_line(b),
                    ));
                }
            },
            BookmarkAction::Add { title, url } => {
                match ctrl.add_bookmark(title.as_str(), url.as_str()) {
                    Some(b) => {
                        let mut s = owned("Bookmark added: ");
                        let text = bookmark_text(&b);
                        push_str(&mut s, text.as_str());
                        lines.push(s);
                        assert(final(ctrl).stored().len() == old(ctrl).stored().len() + 1);
                        assert(line_views(lines@) =~= seq!["Bookmark added: "@ + bookmark_line(b@)]);
                    },
                    None => {
                        lines.push(owned("Bookmark could not be added."));
                        assert(line_views(lines@) =~= seq!["Bookmark could not be added."@]);
                    },
                }
            },
            BookmarkAction::Remove { id } => {
                let removed = ctrl.remove_bookmark(id.as_str());
                let mut s = concatenate("Bookmark ", id.as_str());
                if removed {
                    push_str(&mut s, " removed.");
                } else {
                    push_str(&mut s, " not found.");
                }
                lines.push(s);
                assert(line_views(lines@) =~= seq![s@]);
            },
        },
    }
    lines
}

// ── Daemon ports ─────────────────────────────────────────────────────────────

/// An ASCII decimal digit.
pub open spec fn is_digit(c: char) -> bool {
    '0' <= c <= '9'
}

/// The number that the decimal digits `s` spell.
pub open spec fn digits_value(s: Seq<char>) -> nat
    decreases s.len(),
{
    if s.len() == 0 {
        0
    } else {
        digits_value(s.drop_last()) * 10 + ((s.last() as u32) - ('0' as u32)) as nat
    }
}

/// `s` without a leading `+`.
pub open spec fn unsigned_part(s: Seq<char>) -> Seq<char> {
    if s.len() > 0 && s[0] == '+' {
        s.drop_first()
    } else {
        s
    }
}

/// All characters of `d` are decimal digits.
pub open spec fn all_digits(d: Seq<char>) -> bool {
    forall|i: int| 0 <= i < d.len() ==> is_digit(#[trigger] d[i])
}

/// What `u16::from_str` gives for `s`: an optional `+` followed by one or
/// more decimal digits whose value fits in 16 bits; otherwise nothing.
pub open spec fn parse_u16_spec(s: Seq<char>) -> Option<u16> {
    let d = unsigned_part(s);
    if d.len() > 0 && all_digits(d) && digits_value(d) <= 0xffff {
        Some(digits_value(d) as u16)
    } else {
        None
    }
}

proof fn lemma_digits_value_grows(s: Seq<char>, i: int)
    requires
        0 <= i <= s.len(),
        forall|k: int| 0 <= k < s.len() ==> is_digit(#[trigger] s[k]),
    ensures
        digits_value(s.take(i)) <= digits_value(s),
    decreases s.len() - i,
{
    if i < s.len() {
        lemma_digits_value_grows(s, i + 1);
        assert(s.take(i + 1).drop_last() =~= s.take(i));
        assert(is_digit(s[i]));
    } else {
        assert(s.take(i) =~= s);
    }
}

/// Parses a 16-bit unsigned decimal number (`u16::from_str`).
pub fn parse_u16(s: &str) -> (res: Option<u16>)
    ensures
        res == parse_u16_spec(s@),
{
    let x = chars_of(s);
    let start: usize = if x.len() > 0 && x[0] == '+' {
        1
    } else {
        0
    };
    let ghost d = unsigned_part(s@);
    assert(d =~= x@.skip(start as int));
    if start == x.len() {
        return None;
    }
    let mut value: u32 = 0;
    let mut i: usize = start;
    while i < x.len()
        invariant
            x@ == s@,
            start <= i <= x@.len(),
            d == x@.skip(start as int),
            d == unsigned_part(s@),
            value == digits_value(d.take(i - start)),
            value <= 0xffff,
            forall|k: int| 0 <= k < i - start ==> is_digit(#[trigger] d[k]),
        decreases x@.len() - i,
    {
        let c = x[i];
        assert(d[i - start] == c);
        if !('0' <= c && c <= '9') {
            assert(!is_digit(d[i - start]));
            assert(!all_digits(d));
            return None;
        }
        assert(d.take(i + 1 - start).drop_last() =~= d.take(i - start));
        assert(d[i - start] == c);
        let v = value * 10 + ((c as u32) - ('0' as u32));
        assert(v == digits_value(d.take(i + 1 - start)));
        if v > 0xffff {
            proof {
                if all_digits(d) {
                    lemma_digits_value_grows(d, i + 1 - start);
                    assert(digits_value(d) > 0xffff);
                }
                assert(parse_u16_spec(s@) is None);
            }
            return None;
        }
        value = v;
        i = i + 1;
    }
    assert(d.take(d.len() as int) =~= d);
    Some(value as u16)
}

/// The port configured by an environment value: the value when it parses
/// as a 16-bit number, `default` when it is missing or does not.
pub fn port_or(value: Option<&str>, default: u16) -> (res: u16)
    ensures
        res == match value {
            Some(v) => match parse_u16_spec(v@) {
                Some(p) => p,
                None => default,
            },
            None => default,
        },
{
    match value {
        Some(v) => match parse_u16(v) {
            Some(p) => p,
            None => default,
        },
        None => default,
    }
}

} // verus!
