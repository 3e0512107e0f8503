//! Character-level string helpers with exact specifications.
//!
//! Strings are specified through their views as sequences of Unicode scalar
//! values (`Seq<char>`).

use vstd::prelude::*;
use vstd::string::StringExecFns;

verus! {

broadcast use vstd::string::group_string_axioms;

// ── Specifications ───────────────────────────────────────────────────────────

/// Unicode `White_Space` property (what `char::is_whitespace` tests).
pub open spec fn is_white_space(c: char) -> bool {
    let n = c as u32;
    ||| 0x09 <= n <= 0x0d
    ||| n == 0x20
    ||| n == 0x85
    ||| n == 0xa0
    ||| n == 0x1680
    ||| 0x2000 <= n <= 0x200a
    ||| n == 0x2028
    ||| n == 0x2029
    ||| n == 0x202f
    ||| n == 0x205f
    ||| n == 0x3000
}

/// `s` with leading white space removed.
pub open spec fn trim_start_spec(s: Seq<char>) -> Seq<char>
    decreases s.len(),
{
    if s.len() > 0 && is_white_space(s[0]) {
        trim_start_spec(s.drop_first())
    } else {
        s
    }
}

/// `s` with trailing white space removed.
pub open spec fn trim_end_spec(s: Seq<char>) -> Seq<char>
    decreases s.len(),
{
    if s.len() > 0 && is_white_space(s.last()) {
        trim_end_spec(s.drop_last())
    } else {
        s
    }
}

/// `s` with leading and trailing white space removed (`str::trim`).
pub open spec fn trim_spec(s: Seq<char>) -> Seq<char> {
    trim_end_spec(trim_start_spec(s))
}

/// `s` begins with `prefix`.
pub open spec fn starts_with_spec(s: Seq<char>, prefix: Seq<char>) -> bool {
    prefix.len() <= s.len() && s.subrange(0, prefix.len() as int) == prefix
}

/// `pat` occurs in `s` at position `i`.
pub open spec fn occurs_at(s: Seq<char>, i: int, pat: Seq<char>) -> bool {
    0 <= i && i + pat.len() <= s.len() && s.subrange(i, i + pat.len()) == pat
}

/// Every non-overlapping occurrence of `pat` in `s`, scanned from the left,
/// replaced by `rep` (`str::replace` for a non-empty pattern).
pub open spec fn replace_spec(s: Seq<char>, pat: Seq<char>, rep: Seq<char>) -> Seq<char>
    decreases s.len(),
{
    if s.len() == 0 || pat.len() == 0 {
        s
    } else if occurs_at(s, 0, pat) {
        rep + replace_spec(s.skip(pat.len() as int), pat, rep)
    } else {
        seq![s[0]] + replace_spec(s.drop_first(), pat, rep)
    }
}

/// The upper-case hexadecimal digit for `d < 16`.
pub open spec fn hex_digit_spec(d: nat) -> char {
    if d < 10 {
        (('0' as u32) + d) as char
    } else {
        (('A' as u32) + d - 10) as char
    }
}

/// Decimal digit for `d < 10`.
pub open spec fn decimal_digit_spec(d: nat) -> char {
    (('0' as u32) + d) as char
}

/// Decimal representation of `n` without leading zeros (`"0"` for zero).
pub open spec fn decimal_spec(n: nat) -> Seq<char>
    decreases n,
{
    if n < 10 {
        seq![decimal_digit_spec(n)]
    } else {
        decimal_spec(n / 10).push(decimal_digit_spec(n % 10))
    }
}

// ── Conversions ──────────────────────────────────────────────────────────────

/// The characters of `s`, in order.
pub fn chars_of(s: &str) -> (res: Vec<char>)
    ensures
        res@ == s@,
{
    let mut res: Vec<char> = Vec::new();
    for c in it: s.chars()
        invariant
            res@ == it.seq().take(it.index() as int),
            it.seq() == s@,
    {
        res.push(c);
    }
    res
}

/// Appends `c` to `s` (`String::push`).
#[verifier::external_body]
pub(crate) fn push_char(s: &mut String, c: char)
    ensures
        final(s)@ == old(s)@.push(c),
{
    s.push(c);
}

/// Appends `t` to `s`.
pub fn push_str(s: &mut String, t: &str)
    ensures
        final(s)@ == old(s)@ + t@,
{
    s.append(t);
}

/// A new `String` holding `s`.
pub fn owned(s: &str) -> (res: String)
    ensures
        res@ == s@,
{
    String::from_str(s)
}

/// A `String` made of the characters in `cs`.
pub fn from_chars(cs: &[char]) -> (res: String)
    ensures
        res@ == cs@,
{
    let mut res = String::new();
    let mut i: usize = 0;
    while i < cs.len()
        invariant
            i <= cs@.len(),
            res@ == cs@.take(i as int),
        decreases cs@.len() - i,
    {
        push_char(&mut res, cs[i]);
        i = i + 1;
        assert(res@ == cs@.take(i as int));
    }
    assert(cs@.take(cs@.len() as int) == cs@);
    res
}

/// The concatenation `a + b`.
pub fn concatenate(a: &str, b: &str) -> (res: String)
    ensures
        res@ == a@ + b@,
{
    let mut res = owned(a);
    push_str(&mut res, b);
    res
}

// ── Queries ──────────────────────────────────────────────────────────────────

/// Whether `a` and `b` hold the same characters.
pub fn str_eq(a: &str, b: &str) -> (res: bool)
    ensures
        res == (a@ == b@),
{
    let x = chars_of(a);
    let y = chars_of(b);
    if x.len() != y.len() {
        return false;
    }
    let mut i: usize = 0;
    while i < x.len()
        invariant
            x@ == a@,
            y@ == b@,
            x@.len() == y@.len(),
            i <= x@.len(),
            forall|k: int| 0 <= k < i ==> x@[k] == y@[k],
        decreases x@.len() - i,
    {
        if x[i] != y[i] {
            return false;
        }
        i = i + 1;
    }
    assert(x@ =~= y@);
    true
}

/// Whether `pat` occurs in `s` at position `i`.
pub fn occurs_at_exec(s: &[char], i: usize, pat: &[char]) -> (res: bool)
    ensures
        res == occurs_at(s@, i as int, pat@),
{
    if i > s.len() || pat.len() > s.len() - i {
        return false;
    }
    let mut k: usize = 0;
    while k < pat.len()
        invariant
            i + pat@.len() <= s@.len(),
            s@.len() == s.len(),
            k <= pat@.len(),
            forall|j: int| 0 <= j < k ==> s@[i + j] == pat@[j],
        decreases pat@.len() - k,
    {
        if s[i + k] != pat[k] {
            assert(s@.subrange(i as int, i + pat@.len())[k as int] != pat@[k as int]);
            return false;
        }
        k = k + 1;
    }
    assert(s@.subrange(i as int, i + pat@.len()) =~= pat@);
    true
}

/// Whether `s` begins with `prefix` (`str::starts_with`).
pub fn starts_with(s: &str, prefix: &str) -> (res: bool)
    ensures
        res == starts_with_spec(s@, prefix@),
{
    let x = chars_of(s);
    let p = chars_of(prefix);
    occurs_at_exec(x.as_slice(), 0, p.as_slice())
}

/// Whether `c` occurs in `s` (`str::contains` with a `char`).
pub fn contains_char(s: &str, c: char) -> (res: bool)
    ensures
        res == s@.contains(c),
{
    let x = chars_of(s);
    let mut i: usize = 0;
    while i < x.len()
        invariant
            x@ == s@,
            i <= x@.len(),
            forall|k: int| 0 <= k < i ==> x@[k] != c,
        decreases x@.len() - i,
    {
        if x[i] == c {
            assert(s@[i as int] == c);
            return true;
        }
        i = i + 1;
    }
    false
}

/// Whether `c` is a white-space character (`char::is_whitespace`).
pub fn is_white_space_char(c: char) -> (res: bool)
    ensures
        res == is_white_space(c),
{
    let n = c as u32;
    (0x09 <= n && n <= 0x0d) || n == 0x20 || n == 0x85 || n == 0xa0 || n == 0x1680 || (0x2000
        <= n && n <= 0x200a) || n == 0x2028 || n == 0x2029 || n == 0x202f || n == 0x205f || n
        == 0x3000
}

// ── Transformations ──────────────────────────────────────────────────────────

proof fn lemma_trim_start_skip(s: Seq<char>, i: int)
    requires
        0 <= i <= s.len(),
        forall|k: int| 0 <= k < i ==> is_white_space(#[trigger] s[k]),
    ensures
        trim_start_spec(s) == trim_start_spec(s.skip(i)),
    decreases i,
{
    if i > 0 {
        assert(s.skip(1) =~= s.drop_first());
        lemma_trim_start_skip(s.drop_first(), i - 1);
        assert(s.drop_first().skip(i - 1) =~= s.skip(i));
    } else {
        assert(s.skip(0) =~= s);
    }
}

proof fn lemma_trim_end_take(s: Seq<char>, j: int)
    requires
        0 <= j <= s.len(),
        forall|k: int| j <= k < s.len() ==> is_white_space(#[trigger] s[k]),
    ensures
        trim_end_spec(s) == trim_end_spec(s.take(j)),
    decreases s.len() - j,
{
    if j < s.len() {
        lemma_trim_end_take(s.drop_last(), j);
        assert(s.drop_last().take(j) =~= s.take(j));
    } else {
        assert(s.take(j) =~= s);
    }
}

/// `s` without leading and trailing white space (`str::trim`).
pub fn trim(s: &str) -> (res: String)
    ensures
        res@ == trim_spec(s@),
{
    let x = chars_of(s);
    let n = x.len();
    let mut i: usize = 0;
    while i < n && is_white_space_char(x[i])
        invariant
            x@ == s@,
            n == x@.len(),
            i <= n,
            forall|k: int| 0 <= k < i ==> is_white_space(#[trigger] x@[k]),
        decreases n - i,
    {
        i = i + 1;
    }
    proof {
        lemma_trim_start_skip(s@, i as int);
    }
    let ghost t = s@.skip(i as int);
    assert(trim_start_spec(s@) == t) by {
        if t.len() > 0 {
            assert(t[0] == x@[i as int]);
        }
    }
    let mut j: usize = n;
    while j > i && is_white_space_char(x[j - 1])
        invariant
            x@ == s@,
            n == x@.len(),
            i <= j <= n,
            t == s@.skip(i as int),
            forall|k: int| j <= k < n ==> is_white_space(#[trigger] x@[k]),
        decreases j,
    {
        j = j - 1;
    }
    proof {
        assert forall|k: int| j - i <= k < t.len() implies is_white_space(#[trigger] t[k]) by {
            assert(t[k] == x@[k + i]);
        }
        lemma_trim_end_take(t, j - i);
        let u = t.take(j - i);
        if u.len() > 0 {
            assert(u.last() == x@[j - 1]);
        }
    }
    let res = from_chars(&x.as_slice()[i..j]);
    assert(x@.subrange(i as int, j as int) =~= trim_spec(s@));
    res
}

/// Every occurrence of `pat` in `s` replaced by `rep`, scanning from the
/// left (`str::replace`).
pub fn replace_all(s: &str, pat: &str, rep: &str) -> (res: String)
    requires
        pat@.len() > 0,
    ensures
        res@ == replace_spec(s@, pat@, rep@),
{
    let x = chars_of(s);
    let p = chars_of(pat);
    let n = x.len();
    let mut out = String::new();
    let mut i: usize = 0;
    assert(out@ + replace_spec(x@.skip(0), p@, rep@) =~= replace_spec(x@, p@, rep@)) by {
        assert(x@.skip(0) =~= x@);
    }
    while i < n
        invariant
            x@ == s@,
            p@ == pat@,
            p@.len() > 0,
            n == x@.len(),
            i <= n,
            out@ + replace_spec(x@.skip(i as int), p@, rep@) == replace_spec(x@, p@, rep@),
        decreases n - i,
    {
        let ghost rest = x@.skip(i as int);
        if occurs_at_exec(x.as_slice(), i, p.as_slice()) {
            proof {
                assert(rest.subrange(0, p@.len() as int) =~= x@.subrange(i as int, i + p@.len()));
                assert(rest.skip(p@.len() as int) =~= x@.skip(i + p@.len()));
            }
            push_str(&mut out, rep);
            i = i + p.len();
            assert(out@ + replace_spec(x@.skip(i as int), p@, rep@) == replace_spec(x@, p@, rep@))
                by {
                assert(out@ + replace_spec(x@.skip(i as int), p@, rep@) =~= (out@.subrange(
                    0,
                    out@.len() - rep@.len(),
                ) + (rep@ + replace_spec(x@.skip(i as int), p@, rep@))));
            }
        } else {
            proof {
                if p@.len() <= rest.len() {
                    assert(rest.subrange(0, p@.len() as int) =~= x@.subrange(
                        i as int,
                        i + p@.len(),
                    ));
                }
                assert(rest.drop_first() =~= x@.skip(i + 1));
            }
            let ghost before = out@;
            push_char(&mut out, x[i]);
            i = i + 1;
            assert(out@ + replace_spec(x@.skip(i as int), p@, rep@) =~= before + (seq![rest[0]]
                + replace_spec(rest.drop_first(), p@, rep@)));
        }
    }
    assert(x@.skip(n as int) =~= Seq::<char>::empty());
    assert(out@ + replace_spec(x@.skip(n as int), p@, rep@) =~= out@);
    out
}

/// The first `n` characters of `s` (all of `s` when shorter).
pub fn truncate_chars(s: &str, n: usize) -> (res: String)
    ensures
        res@ == s@.take(if n <= s@.len() { n as int } else { s@.len() as int }),
{
    let x = chars_of(s);
    let k = if n <= x.len() { n } else { x.len() };
    from_chars(&x.as_slice()[0..k])
}

/// The upper-case hexadecimal digit for `d < 16`.
pub fn hex_digit(d: u32) -> (res: char)
    requires
        d < 16,
    ensures
        res == hex_digit_spec(d as nat),
{
    if d < 10 {
        char_from_u32_ascii(('0' as u32) + d)
    } else {
        char_from_u32_ascii(('A' as u32) + d - 10)
    }
}

/// The decimal digit for `d < 10`.
pub fn decimal_digit(d: u32) -> (res: char)
    requires
        d < 10,
    ensures
        res == decimal_digit_spec(d as nat),
{
    char_from_u32_ascii(('0' as u32) + d)
}

/// The ASCII character with code `n < 128`.
fn char_from_u32_ascii(n: u32) -> (res: char)
    requires
        n < 128,
    ensures
        res == n as char,
{
    let b: u8 = n as u8;
    b as char
}

/// The characters of `digits` in reverse order, as a `String`.
fn reversed_string(digits: &Vec<char>) -> (res: String)
    ensures
        res@ == digits@.reverse(),
{
    let mut res = String::new();
    let mut i: usize = digits.len();
    while i > 0
        invariant
            i <= digits@.len(),
            res@ == digits@.reverse().take(digits@.len() - i),
        decreases i,
    {
        i = i - 1;
        push_char(&mut res, digits[i]);
        assert(res@ =~= digits@.reverse().take(digits@.len() - i));
    }
    assert(digits@.reverse().take(digits@.len() as int) =~= digits@.reverse());
    res
}

/// Decimal representation of `n` (`n.to_string()`).
pub fn decimal_string(n: u64) -> (res: String)
    ensures
        res@ == decimal_spec(n as nat),
{
    let mut digits: Vec<char> = Vec::new();
    let mut m: u64 = n;
    while m >= 10
        invariant
            decimal_spec(n as nat) == decimal_spec(m as nat) + digits@.reverse(),
        decreases m,
    {
        let d = decimal_digit((m % 10) as u32);
        let ghost old_digits = digits@;
        digits.push(d);
        assert(digits@.reverse() =~= seq![d] + old_digits.reverse());
        assert(decimal_spec(m as nat) == decimal_spec((m / 10) as nat).push(d));
        assert(decimal_spec((m / 10) as nat) + digits@.reverse() =~= decimal_spec(
            (m / 10) as nat,
        ).push(d) + old_digits.reverse());
        m = m / 10;
    }
    let d = decimal_digit(m as u32);
    let ghost old_digits = digits@;
    digits.push(d);
    assert(digits@.reverse() =~= seq![d] + old_digits.reverse());
    reversed_string(&digits)
}

// ── Lemmas ───────────────────────────────────────────────────────────────────

/// `trim_end_spec(u)` is a prefix of `u` that is empty or ends with a
/// character that is not white space; the result is its length.
pub(crate) proof fn lemma_trim_end_prefix(u: Seq<char>) -> (k: int)
    ensures
        0 <= k <= u.len(),
        trim_end_spec(u) == u.take(k),
        k == 0 || !is_white_space(u[k - 1]),
    decreases u.len(),
{
    if u.len() > 0 && is_white_space(u.last()) {
        let k = lemma_trim_end_prefix(u.drop_last());
        assert(u.drop_last().take(k) =~= u.take(k));
        k
    } else {
        assert(u.take(u.len() as int) =~= u);
        u.len() as int
    }
}

/// `trim_start_spec(s)` is empty or begins with a character that is not
/// white space.
pub(crate) proof fn lemma_trim_start_shape(s: Seq<char>)
    ensures
        trim_start_spec(s).len() == 0 || !is_white_space(trim_start_spec(s)[0]),
    decreases s.len(),
{
    if s.len() > 0 && is_white_space(s[0]) {
        lemma_trim_start_shape(s.drop_first());
    }
}

/// A trimmed text is empty or begins and ends with characters that are not
/// white space.
pub(crate) proof fn lemma_trim_shape(s: Seq<char>)
    ensures
        trim_spec(s).len() == 0 || (!is_white_space(trim_spec(s)[0]) && !is_white_space(
            trim_spec(s).last(),
        )),
{
    let u = trim_start_spec(s);
    lemma_trim_start_shape(s);
    let k = lemma_trim_end_prefix(u);
    if k > 0 {
        assert(trim_spec(s)[0] == u[0]);
        assert(trim_spec(s).last() == u[k - 1]);
    }
}

/// A text that begins and ends with characters that are not white space is
/// its own trim.
pub(crate) proof fn lemma_trim_fixed(s: Seq<char>)
    requires
        s.len() > 0,
        !is_white_space(s[0]),
        !is_white_space(s.last()),
    ensures
        trim_spec(s) == s,
{
}

/// Replacing `pat` in `p + pat`, where `p` holds no first character of
/// `pat`, replaces just the final occurrence.
pub(crate) proof fn lemma_replace_after_prefix(p: Seq<char>, pat: Seq<char>, rep: Seq<char>)
    requires
        pat.len() > 0,
        forall|j: int| 0 <= j < p.len() ==> p[j] != pat[0],
    ensures
        replace_spec(p + pat, pat, rep) == p + rep,
    decreases p.len(),
{
    let s = p + pat;
    if p.len() == 0 {
        assert(s =~= pat);
        assert(s.subrange(0, pat.len() as int) =~= pat);
        assert(s.skip(pat.len() as int) =~= Seq::<char>::empty());
        assert(replace_spec(s.skip(pat.len() as int), pat, rep) == Seq::<char>::empty());
        assert(replace_spec(s, pat, rep) == rep + Seq::<char>::empty());
        assert(rep + Seq::<char>::empty() =~= rep);
        assert(p + rep =~= rep);
    } else {
        assert(s[0] == p[0]);
        if occurs_at(s, 0, pat) {
            assert(s.subrange(0, pat.len() as int)[0] == s[0]);
        }
        assert(s.drop_first() =~= p.drop_first() + pat);
        lemma_replace_after_prefix(p.drop_first(), pat, rep);
        assert(!occurs_at(s, 0, pat));
        assert(replace_spec(s, pat, rep) == seq![s[0]] + replace_spec(s.drop_first(), pat, rep));
        assert(seq![p[0]] + (p.drop_first() + rep) =~= p + rep);
    }
}

} // verus!
