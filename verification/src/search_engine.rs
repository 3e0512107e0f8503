//! Search engines with URL templates, the registry of built-in engines, and
//! the search-related part of the browser configuration.
//!
//! Only privacy-respecting engines are built in: Google, Bing and Yandex are
//! deliberately excluded.

use vstd::prelude::*;

use crate::text::{
    hex_digit, hex_digit_spec, is_white_space, owned, push_char, replace_all, replace_spec,
    starts_with_spec,
};
use vstd::utf8::encode_scalar;

verus! {

broadcast use vstd::string::group_string_axioms;

// ── Specifications ───────────────────────────────────────────────────────────

/// What `char::is_alphanumeric` returns for `c` (the Unicode `Alphabetic`
/// or `Numeric` property).
pub uninterp spec fn char_is_alphanumeric(c: char) -> bool;

/// An ASCII letter or digit.
pub open spec fn is_ascii_alphanumeric(c: char) -> bool {
    ||| 'a' <= c <= 'z'
    ||| 'A' <= c <= 'Z'
    ||| '0' <= c <= '9'
}

/// One of the unreserved marks `-`, `_`, `.`, `~`.
pub open spec fn is_unreserved_mark(c: char) -> bool {
    c == '-' || c == '_' || c == '.' || c == '~'
}

/// `c` is alphanumeric: for ASCII a letter or digit, otherwise what
/// `char::is_alphanumeric` says.
pub open spec fn is_alphanumeric_spec(c: char) -> bool {
    if (c as u32) < 128 {
        is_ascii_alphanumeric(c)
    } else {
        char_is_alphanumeric(c)
    }
}

/// A byte as `%` and two upper-case hexadecimal digits.
pub open spec fn percent_byte(b: u8) -> Seq<char> {
    seq!['%', hex_digit_spec((b / 16) as nat), hex_digit_spec((b % 16) as nat)]
}

/// Each byte of `bytes` percent-encoded, in order.
pub open spec fn percent_bytes(bytes: Seq<u8>) -> Seq<char>
    decreases bytes.len(),
{
    if bytes.len() == 0 {
        Seq::empty()
    } else {
        percent_bytes(bytes.drop_last()) + percent_byte(bytes.last())
    }
}

/// How one character of a search term is written in a URL: space as `+`,
/// alphanumerics and `-_.~` as they are, anything else as its UTF-8 bytes
/// percent-encoded.
pub open spec fn encode_char_spec(c: char) -> Seq<char> {
    if c == ' ' {
        seq!['+']
    } else if is_alphanumeric_spec(c) || is_unreserved_mark(c) {
        seq![c]
    } else {
        percent_bytes(encode_scalar(c as u32))
    }
}

/// The URL encoding of a search term: each character encoded in turn.
pub open spec fn url_encode_spec(s: Seq<char>) -> Seq<char>
    decreases s.len(),
{
    if s.len() == 0 {
        Seq::empty()
    } else {
        url_encode_spec(s.drop_last()) + encode_char_spec(s.last())
    }
}

/// A character that separates the parts of a URL or of its query: space,
/// `&`, `#`, `?`, `=` or `/`.
pub open spec fn is_url_delimiter(c: char) -> bool {
    c == ' ' || c == '&' || c == '#' || c == '?' || c == '=' || c == '/'
}

/// The value of a hexadecimal digit of either case.
pub open spec fn hex_value(c: char) -> Option<nat> {
    if '0' <= c <= '9' {
        Some((c as u32 - '0' as u32) as nat)
    } else if 'A' <= c <= 'F' {
        Some((c as u32 - 'A' as u32 + 10) as nat)
    } else if 'a' <= c <= 'f' {
        Some((c as u32 - 'a' as u32 + 10) as nat)
    } else {
        None
    }
}

/// Decoding of a URL-encoded term: `+` is a space, `%` and two hexadecimal
/// digits the character with that code, any other character itself.
pub open spec fn url_decode_spec(s: Seq<char>) -> Seq<char>
    decreases s.len(),
{
    if s.len() == 0 {
        Seq::empty()
    } else if s[0] == '+' {
        seq![' '] + url_decode_spec(s.drop_first())
    } else if s[0] == '%' && s.len() >= 3 && hex_value(s[1]) is Some && hex_value(s[2]) is Some {
        seq![(hex_value(s[1])->0 * 16 + hex_value(s[2])->0) as char] + url_decode_spec(s.skip(3))
    } else {
        seq![s[0]] + url_decode_spec(s.drop_first())
    }
}

/// The placeholder that a URL template holds for the search term.
pub open spec fn query_placeholder() -> Seq<char> {
    "{query}"@
}

/// The search URL that `template` gives for `query`.
pub open spec fn search_url_spec(template: Seq<char>, query: Seq<char>) -> Seq<char> {
    replace_spec(template, query_placeholder(), url_encode_spec(query))
}

/// A URL template made of a web address (`http://` or `https://` and no
/// `{`) followed by the placeholder.
pub open spec fn is_web_template(t: Seq<char>) -> bool {
    let n = t.len() - query_placeholder().len();
    &&& 0 <= n
    &&& t.skip(n) == query_placeholder()
    &&& forall|j: int| 0 <= j < n ==> t[j] != '{'
    &&& starts_with_spec(t.take(n), "http://"@) || starts_with_spec(t.take(n), "https://"@)
}

/// The fields of a search engine, as character sequences.
pub struct EngineSpec {
    pub id: Seq<char>,
    pub name: Seq<char>,
    pub url_template: Seq<char>,
}

/// The built-in engines, in display order.
pub open spec fn builtin_engines() -> Seq<EngineSpec> {
    seq![
        EngineSpec {
            id: "brave"@,
            name: "Brave Search"@,
            url_template: "https://search.brave.com/search?q={query}"@,
        },
        EngineSpec {
            id: "ecosia"@,
            name: "Ecosia"@,
            url_template: "https://www.ecosia.org/search?q={query}"@,
        },
        EngineSpec {
            id: "startpage"@,
            name: "Startpage"@,
            url_template: "https://www.startpage.com/search?q={query}"@,
        },
        EngineSpec { id: "kagi"@, name: "Kagi"@, url_template: "https://kagi.com/search?q={query}"@ },
        EngineSpec {
            id: "duckduckgo"@,
            name: "DuckDuckGo"@,
            url_template: "https://duckduckgo.com/?q={query}"@,
        },
        EngineSpec {
            id: "searxng"@,
            name: "SearXNG (local)"@,
            url_template: "http://localhost:8888/search?q={query}"@,
        },
    ]
}

/// The engine used when no engine has the requested id: Brave Search.
pub open spec fn fallback_engine() -> EngineSpec {
    EngineSpec {
        id: "brave"@,
        name: "Brave Search"@,
        url_template: "https://search.brave.com/search?q={query}"@,
    }
}

/// The first engine of `engines` whose id is `id`.
pub open spec fn first_with_id(engines: Seq<EngineSpec>, id: Seq<char>) -> Option<EngineSpec>
    decreases engines.len(),
{
    if engines.len() == 0 {
        None
    } else if engines[0].id == id {
        Some(engines[0])
    } else {
        first_with_id(engines.drop_first(), id)
    }
}

/// The engine that a lookup of `id` yields: the built-in engine with that
/// id, else the fallback engine.
pub open spec fn find_spec(id: Seq<char>) -> EngineSpec {
    match first_with_id(builtin_engines(), id) {
        Some(e) => e,
        None => fallback_engine(),
    }
}

/// The id of the engine that a fresh configuration selects.
pub open spec fn default_engine_id_spec() -> Seq<char> {
    "brave"@
}

// ── SearchEngine ─────────────────────────────────────────────────────────────

/// A search engine with a URL template.
///
/// The template holds `{query}` as a placeholder for the URL-encoded search
/// term, e.g. `"https://search.brave.com/search?q={query}"`.
#[derive(Debug)]
pub struct SearchEngine {
    /// Stable identifier (e.g. `"brave"`).
    pub id: String,
    /// Display name shown in settings (e.g. `"Brave Search"`).
    pub name: String,
    /// URL template: `{query}` is replaced with the URL-encoded search term.
    pub url_template: String,
}

impl View for SearchEngine {
    type V = EngineSpec;

    open spec fn view(&self) -> EngineSpec {
        EngineSpec { id: self.id@, name: self.name@, url_template: self.url_template@ }
    }
}

impl Clone for SearchEngine {
    fn clone(&self) -> (res: Self)
        ensures
            res@ == self@,
    {
        SearchEngine {
            id: self.id.clone(),
            name: self.name.clone(),
            url_template: self.url_template.clone(),
        }
    }
}

impl SearchEngine {
    /// An engine with the given id, display name and URL template.
    pub fn new(id: &str, name: &str, url_template: &str) -> (res: SearchEngine)
        ensures
            res@ == (EngineSpec { id: id@, name: name@, url_template: url_template@ }),
    {
        SearchEngine { id: owned(id), name: owned(name), url_template: owned(url_template) }
    }

    /// The full search URL for `query`: every `{query}` in the template
    /// replaced by the URL-encoded query.
    pub fn build_url(&self, query: &str) -> (res: String)
        ensures
            res@ == search_url_spec(self.url_template@, query@),
    {
        let encoded = url_encode(query);
        proof {
            reveal_strlit("{query}");
        }
        replace_all(self.url_template.as_str(), "{query}", encoded.as_str())
    }
}

// ── SearchEngineRegistry ─────────────────────────────────────────────────────

/// Registry of the built-in search engines.
pub struct SearchEngineRegistry;

impl SearchEngineRegistry {
    /// All built-in search engines, in display order.
    pub fn all() -> (res: Vec<SearchEngine>)
        ensures
            res@.map_values(|e: SearchEngine| e@) == builtin_engines(),
    {
        let mut v: Vec<SearchEngine> = Vec::new();
        v.push(
            SearchEngine::new("brave", "Brave Search", "https://search.brave.com/search?q={query}"),
        );
        v.push(SearchEngine::new("ecosia", "Ecosia", "https://www.ecosia.org/search?q={query}"));
        v.push(
            SearchEngine::new("startpage", "Startpage", "https://www.startpage.com/search?q={query}"),
        );
        v.push(SearchEngine::new("kagi", "Kagi", "https://kagi.com/search?q={query}"));
        v.push(SearchEngine::new("duckduckgo", "DuckDuckGo", "https://duckduckgo.com/?q={query}"));
        v.push(
            SearchEngine::new(
                "searxng",
                "SearXNG (local)",
                "http://localhost:8888/search?q={query}",
            ),
        );
        assert(v@.map_values(|e: SearchEngine| e@) =~= builtin_engines());
        v
    }

    /// The built-in engine with id `id`, falling back to Brave Search.
    pub fn find(id: &str) -> (res: SearchEngine)
        ensures
            res@ == find_spec(id@),
    {
        let engines = Self::all();
        let ghost specs = engines@.map_values(|e: SearchEngine| e@);
        let mut i: usize = 0;
        assert(specs.skip(0) =~= specs);
        while i < engines.len()
            invariant
                specs == engines@.map_values(|e: SearchEngine| e@),
                specs == builtin_engines(),
                i <= engines@.len(),
                first_with_id(specs, id@) == first_with_id(specs.skip(i as int), id@),
            decreases engines@.len() - i,
        {
            assert(specs.skip(i as int)[0] == engines@[i as int]@);
            if crate::text::str_eq(engines[i].id.as_str(), id) {
                return engines[i].clone();
            }
            assert(specs.skip(i as int).drop_first() =~= specs.skip(i + 1));
            i = i + 1;
        }
        assert(specs.skip(i as int) =~= Seq::<EngineSpec>::empty());
        SearchEngine::new("brave", "Brave Search", "https://search.brave.com/search?q={query}")
    }
}

// ── BrowserConfig ────────────────────────────────────────────────────────────

/// Browser configuration: the id of the active search engine.
#[derive(Debug)]
pub struct BrowserConfig {
    /// Id of the active search engine (e.g. `"brave"`).
    pub search_engine: String,
}

impl Clone for BrowserConfig {
    fn clone(&self) -> (res: Self)
        ensures
            res.search_engine@ == self.search_engine@,
    {
        BrowserConfig { search_engine: self.search_engine.clone() }
    }
}

/// The id of the engine that a configuration without one selects.
pub fn default_engine_id() -> (res: String)
    ensures
        res@ == default_engine_id_spec(),
{
    owned("brave")
}

impl Default for BrowserConfig {
    fn default() -> (res: Self)
        ensures
            res.search_engine@ == default_engine_id_spec(),
    {
        BrowserConfig { search_engine: default_engine_id() }
    }
}

impl BrowserConfig {
    /// The configured search engine (Brave Search when the id is unknown).
    pub fn active_engine(&self) -> (res: SearchEngine)
        ensures
            res@ == find_spec(self.search_engine@),
    {
        SearchEngineRegistry::find(self.search_engine.as_str())
    }

    /// The search URL for `query` with the configured engine.
    pub fn build_search_url(&self, query: &str) -> (res: String)
        ensures
            res@ == search_url_spec(find_spec(self.search_engine@).url_template, query@),
    {
        self.active_engine().build_url(query)
    }
}

// ── URL encoding ─────────────────────────────────────────────────────────────

/// Whether `c` is alphanumeric (`char::is_alphanumeric`).
///
/// Calls `char::is_alphanumeric`; the contract names the result
/// `char_is_alphanumeric(c)`. Which characters count is left to the Unicode
/// tables and not stated; the library asks only about non-ASCII characters.
#[verifier::external_body]
fn is_alphanumeric(c: char) -> (res: bool)
    ensures
        res == char_is_alphanumeric(c),
{
    c.is_alphanumeric()
}

/// The UTF-8 encoding of `c`.
pub fn utf8_bytes(c: char) -> (res: Vec<u8>)
    ensures
        res@ == encode_scalar(c as u32),
{
    let n = c as u32;
    let mut v: Vec<u8> = Vec::new();
    if n <= 0x7F {
        v.push((n & 0x7F) as u8);
    } else if n <= 0x7FF {
        v.push(0xC0 | ((n >> 6) & 0x1F) as u8);
        v.push(0x80 | (n & 0x3F) as u8);
    } else if n <= 0xFFFF {
        v.push(0xE0 | ((n >> 12) & 0x0F) as u8);
        v.push(0x80 | ((n >> 6) & 0x3F) as u8);
        v.push(0x80 | (n & 0x3F) as u8);
    } else {
        v.push(0xF0 | ((n >> 18) & 0x7) as u8);
        v.push(0x80 | ((n >> 12) & 0x3F) as u8);
        v.push(0x80 | ((n >> 6) & 0x3F) as u8);
        v.push(0x80 | (n & 0x3F) as u8);
    }
    assert(v@ =~= encode_scalar(n));
    v
}

/// Appends `%` and the two upper-case hexadecimal digits of `b`.
fn push_percent_byte(out: &mut String, b: u8)
    ensures
        final(out)@ == old(out)@ + percent_byte(b),
{
    push_char(out, '%');
    push_char(out, hex_digit((b / 16) as u32));
    push_char(out, hex_digit((b % 16) as u32));
    assert(final(out)@ =~= old(out)@ + percent_byte(b));
}

/// Whether `c` is alphanumeric: ASCII letters and digits are told here,
/// other characters by `char::is_alphanumeric`.
fn is_alphanumeric_char(c: char) -> (res: bool)
    ensures
        res == is_alphanumeric_spec(c),
{
    if (c as u32) < 128 {
        ('a' <= c && c <= 'z') || ('A' <= c && c <= 'Z') || ('0' <= c && c <= '9')
    } else {
        is_alphanumeric(c)
    }
}

/// How one character of a search term is written in a URL.
fn encode_char(out: &mut String, c: char)
    ensures
        final(out)@ == old(out)@ + encode_char_spec(c),
{
    if c == ' ' {
        push_char(out, '+');
    } else if is_alphanumeric_char(c) || c == '-' || c == '_' || c == '.' || c == '~' {
        push_char(out, c);
    } else {
        let bytes = utf8_bytes(c);
        let ghost start = out@;
        let mut i: usize = 0;
        while i < bytes.len()
            invariant
                i <= bytes@.len(),
                out@ == start + percent_bytes(bytes@.take(i as int)),
            decreases bytes@.len() - i,
        {
            assert(bytes@.take(i + 1).drop_last() =~= bytes@.take(i as int));
            push_percent_byte(out, bytes[i]);
            i = i + 1;
            assert(out@ =~= start + percent_bytes(bytes@.take(i as int)));
        }
        assert(bytes@.take(bytes@.len() as int) =~= bytes@);
    }
}

/// URL-encodes a search term: space becomes `+`, alphanumerics and
/// `-_.~` stay, every other character becomes its UTF-8 bytes, each as `%`
/// and two upper-case hexadecimal digits.
pub fn url_encode(s: &str) -> (res: String)
    ensures
        res@ == url_encode_spec(s@),
{
    let cs = crate::text::chars_of(s);
    let mut res = String::new();
    let mut i: usize = 0;
    while i < cs.len()
        invariant
            cs@ == s@,
            i <= cs@.len(),
            res@ == url_encode_spec(cs@.take(i as int)),
        decreases cs@.len() - i,
    {
        encode_char(&mut res, cs[i]);
        assert(cs@.take(i + 1).drop_last() =~= cs@.take(i as int));
        i = i + 1;
    }
    assert(cs@.take(cs@.len() as int) =~= cs@);
    res
}

// ── Laws ─────────────────────────────────────────────────────────────────────

/// Every built-in URL template ends with the `{query}` placeholder, so every
/// search URL carries the search term.
pub proof fn law_builtin_templates_hold_placeholder()
    ensures
        forall|i: int|
            0 <= i < builtin_engines().len() ==> {
                let t = (#[trigger] builtin_engines()[i]).url_template;
                t.len() >= query_placeholder().len() && t.skip(t.len() - query_placeholder().len())
                    == query_placeholder()
            },
        fallback_engine() == builtin_engines()[0],
{
    reveal_strlit("{query}");
    reveal_strlit("https://search.brave.com/search?q={query}");
    reveal_strlit("https://www.ecosia.org/search?q={query}");
    reveal_strlit("https://www.startpage.com/search?q={query}");
    reveal_strlit("https://kagi.com/search?q={query}");
    reveal_strlit("https://duckduckgo.com/?q={query}");
    reveal_strlit("http://localhost:8888/search?q={query}");
    let p = query_placeholder();
    assert forall|i: int| 0 <= i < builtin_engines().len() implies {
        let t = (#[trigger] builtin_engines()[i]).url_template;
        t.len() >= p.len() && t.skip(t.len() - p.len()) == p
    } by {
        let t = builtin_engines()[i].url_template;
        assert(t.skip(t.len() - p.len()) =~= p);
    }
}

/// Lookups fall back to the first built-in engine, Brave Search, which is
/// also the engine that a fresh configuration selects.
pub proof fn law_default_engine_is_brave(id: Seq<char>)
    ensures
        first_with_id(builtin_engines(), id) is None ==> find_spec(id) == builtin_engines()[0],
        find_spec(default_engine_id_spec()) == builtin_engines()[0],
{
    reveal_strlit("brave");
    assert(builtin_engines()[0].id == default_engine_id_spec());
}

/// Only privacy-respecting engines are built in: none is Google, Bing or
/// Yandex.
pub proof fn law_no_tracking_engines()
    ensures
        forall|i: int|
            0 <= i < builtin_engines().len() ==> {
                let id = (#[trigger] builtin_engines()[i]).id;
                id != "google"@ && id != "bing"@ && id != "yandex"@
            },
{
    reveal_strlit("google");
    reveal_strlit("bing");
    reveal_strlit("yandex");
    reveal_strlit("brave");
    reveal_strlit("ecosia");
    reveal_strlit("startpage");
    reveal_strlit("kagi");
    reveal_strlit("duckduckgo");
    reveal_strlit("searxng");
    assert forall|i: int| 0 <= i < builtin_engines().len() implies {
        let id = (#[trigger] builtin_engines()[i]).id;
        id != "google"@ && id != "bing"@ && id != "yandex"@
    } by {
        let id = builtin_engines()[i].id;
        assert(id.len() > 0 && id[0] != 'g' && id[0] != 'y' && (id.len() != 4 || id[0] != 'b'));
        assert(id[0] != "google"@[0]);
        assert(id[0] != "yandex"@[0]);
        assert(id.len() != "bing"@.len() || id[0] != "bing"@[0]);
    }
}

/// Encoding a concatenation encodes each part in turn.
proof fn lemma_encode_append(a: Seq<char>, b: Seq<char>)
    ensures
        url_encode_spec(a + b) == url_encode_spec(a) + url_encode_spec(b),
    decreases b.len(),
{
    if b.len() == 0 {
        assert(a + b =~= a);
        assert(url_encode_spec(a) + url_encode_spec(b) =~= url_encode_spec(a));
    } else {
        assert((a + b).drop_last() =~= a + b.drop_last());
        assert((a + b).last() == b.last());
        lemma_encode_append(a, b.drop_last());
        assert(url_encode_spec(a + b) =~= url_encode_spec(a) + url_encode_spec(b));
    }
}

/// The encoding of a non-empty term begins with the encoding of its first
/// character.
proof fn lemma_encode_first(s: Seq<char>)
    requires
        s.len() > 0,
    ensures
        url_encode_spec(s) == encode_char_spec(s[0]) + url_encode_spec(s.drop_first()),
{
    let head = seq![s[0]];
    assert(s =~= head + s.drop_first());
    lemma_encode_append(head, s.drop_first());
    assert(head.drop_last() =~= Seq::<char>::empty());
    assert(url_encode_spec(head.drop_last()) == Seq::<char>::empty());
    assert(url_encode_spec(head) == url_encode_spec(head.drop_last()) + encode_char_spec(s[0]));
    assert(Seq::<char>::empty() + encode_char_spec(s[0]) =~= encode_char_spec(s[0]));
}

/// A hexadecimal digit reads back as its value.
proof fn lemma_hex_value_of_digit(d: nat)
    requires
        d < 16,
    ensures
        hex_value(hex_digit_spec(d)) == Some(d),
{
}

/// The percent-encoding of a single byte.
proof fn lemma_percent_bytes_single(b: u8)
    ensures
        percent_bytes(seq![b]) == percent_byte(b),
{
    assert(seq![b].drop_last() =~= Seq::<u8>::empty());
    assert(percent_bytes(seq![b].drop_last()) == Seq::<char>::empty());
    assert(percent_bytes(seq![b]) == percent_bytes(seq![b].drop_last()) + percent_byte(b));
    assert(Seq::<char>::empty() + percent_byte(b) =~= percent_byte(b));
}

/// Decoding the encoding of an ASCII character gives the character back.
proof fn lemma_decode_encoded_char(c: char, rest: Seq<char>)
    requires
        (c as u32) < 128,
    ensures
        url_decode_spec(encode_char_spec(c) + rest) == seq![c] + url_decode_spec(rest),
{
    let e = encode_char_spec(c);
    let s = e + rest;
    if c == ' ' {
        assert(s.drop_first() =~= rest);
    } else if is_alphanumeric_spec(c) || is_unreserved_mark(c) {
        assert(s.drop_first() =~= rest);
    } else {
        let n = c as u32;
        assert((n & 0x7F) == n) by (bit_vector)
            requires
                n < 128,
        ;
        let b: u8 = (n & 0x7F) as u8;
        assert(encode_scalar(n) =~= seq![b]);
        lemma_percent_bytes_single(b);
        lemma_hex_value_of_digit((b / 16) as nat);
        lemma_hex_value_of_digit((b % 16) as nat);
        assert(e =~= percent_byte(b));
        assert(s[0] == '%' && s[1] == hex_digit_spec((b / 16) as nat) && s[2] == hex_digit_spec(
            (b % 16) as nat,
        ));
        assert(s.skip(3) =~= rest);
        assert((b / 16) * 16 + b % 16 == b);
        assert(((b as nat) as char) == c);
    }
}

/// Decoding the URL encoding of an ASCII search term gives the term back:
/// `+` stands for a space and `%XY` for the character with code `XY`.
pub proof fn law_url_decode_inverts_encode(s: Seq<char>)
    requires
        forall|i: int| 0 <= i < s.len() ==> (s[i] as u32) < 128,
    ensures
        url_decode_spec(url_encode_spec(s)) == s,
    decreases s.len(),
{
    if s.len() > 0 {
        lemma_encode_first(s);
        lemma_decode_encoded_char(s[0], url_encode_spec(s.drop_first()));
        law_url_decode_inverts_encode(s.drop_first());
        assert(s =~= seq![s[0]] + s.drop_first());
    }
}

/// The percent-encoding of bytes is made of `%` and upper-case hexadecimal
/// digits.
proof fn lemma_percent_bytes_chars(bytes: Seq<u8>)
    ensures
        forall|i: int|
            0 <= i < percent_bytes(bytes).len() ==> {
                let c = #[trigger] percent_bytes(bytes)[i];
                c == '%' || '0' <= c <= '9' || 'A' <= c <= 'F'
            },
    decreases bytes.len(),
{
    if bytes.len() > 0 {
        lemma_percent_bytes_chars(bytes.drop_last());
        let b = bytes.last();
        let p = percent_bytes(bytes.drop_last());
        assert(percent_bytes(bytes) == p + percent_byte(b));
        assert forall|i: int| 0 <= i < percent_bytes(bytes).len() implies {
            let c = #[trigger] percent_bytes(bytes)[i];
            c == '%' || '0' <= c <= '9' || 'A' <= c <= 'F'
        } by {
            if i >= p.len() {
                assert(percent_bytes(bytes)[i] == percent_byte(b)[i - p.len()]);
            } else {
                assert(percent_bytes(bytes)[i] == p[i]);
            }
        }
    }
}

/// The URL encoding of any search term holds no space and none of the
/// characters `&`, `#`, `?`, `=`, `/` that would end the query or split it.
pub proof fn law_url_encode_has_no_delimiters(s: Seq<char>)
    ensures
        forall|i: int|
            0 <= i < url_encode_spec(s).len() ==> !is_url_delimiter(
                #[trigger] url_encode_spec(s)[i],
            ),
    decreases s.len(),
{
    if s.len() > 0 {
        law_url_encode_has_no_delimiters(s.drop_last());
        let c = s.last();
        let p = url_encode_spec(s.drop_last());
        let e = encode_char_spec(c);
        if c != ' ' && !is_alphanumeric_spec(c) && !is_unreserved_mark(c) {
            lemma_percent_bytes_chars(encode_scalar(c as u32));
        }
        assert forall|i: int| 0 <= i < url_encode_spec(s).len() implies !is_url_delimiter(
            #[trigger] url_encode_spec(s)[i],
        ) by {
            if i >= p.len() {
                assert(url_encode_spec(s)[i] == e[i - p.len()]);
            } else {
                assert(url_encode_spec(s)[i] == p[i]);
            }
        }
    }
}

/// An engine that a lookup finds is one of the engines searched; the result
/// is its position.
proof fn lemma_first_with_id_member(engines: Seq<EngineSpec>, id: Seq<char>) -> (i: int)
    ensures
        first_with_id(engines, id) is Some ==> 0 <= i < engines.len() && engines[i]
            == first_with_id(engines, id)->0,
    decreases engines.len(),
{
    if engines.len() == 0 || engines[0].id == id {
        0
    } else {
        let k = lemma_first_with_id_member(engines.drop_first(), id);
        k + 1
    }
}

/// Every built-in URL template is a web address followed by the placeholder.
proof fn lemma_builtin_templates_are_web()
    ensures
        forall|i: int|
            0 <= i < builtin_engines().len() ==> is_web_template(
                #[trigger] builtin_engines()[i].url_template,
            ),
{
    reveal_strlit("{query}");
    reveal_strlit("http://");
    reveal_strlit("https://");
    reveal_strlit("https://search.brave.com/search?q={query}");
    reveal_strlit("https://www.ecosia.org/search?q={query}");
    reveal_strlit("https://www.startpage.com/search?q={query}");
    reveal_strlit("https://kagi.com/search?q={query}");
    reveal_strlit("https://duckduckgo.com/?q={query}");
    reveal_strlit("http://localhost:8888/search?q={query}");
    let p = query_placeholder();
    assert forall|i: int| 0 <= i < builtin_engines().len() implies is_web_template(
        #[trigger] builtin_engines()[i].url_template,
    ) by {
        let t = builtin_engines()[i].url_template;
        let n = t.len() - p.len();
        assert(t.skip(n) =~= p);
        if i == 5 {
            assert(t.take(n).subrange(0, 7) =~= "http://"@);
        } else {
            assert(t.take(n).subrange(0, 8) =~= "https://"@);
        }
    }
}

/// The URL template of the engine that any lookup yields is a web address
/// followed by the placeholder.
pub(crate) proof fn lemma_found_template_is_web(id: Seq<char>)
    ensures
        is_web_template(find_spec(id).url_template),
{
    lemma_builtin_templates_are_web();
    let i = lemma_first_with_id_member(builtin_engines(), id);
    assert(is_web_template(builtin_engines()[0].url_template));
}

/// The URL encoding of a term that ends with a character that is not white
/// space is not empty and ends with such a character too.
pub(crate) proof fn lemma_encode_ends_without_white_space(s: Seq<char>)
    requires
        s.len() > 0,
        !is_white_space(s.last()),
    ensures
        url_encode_spec(s).len() > 0,
        !is_white_space(url_encode_spec(s).last()),
{
    let c = s.last();
    let e = encode_char_spec(c);
    assert(url_encode_spec(s) == url_encode_spec(s.drop_last()) + e);
    if c != ' ' && !is_alphanumeric_spec(c) && !is_unreserved_mark(c) {
        let bytes = encode_scalar(c as u32);
        assert(bytes.len() > 0);
        assert(percent_bytes(bytes) == percent_bytes(bytes.drop_last()) + percent_byte(bytes.last()));
        let d = (bytes.last() % 16) as nat;
        assert(e.last() == hex_digit_spec(d));
    }
    assert(url_encode_spec(s).last() == e.last());
}

} // verus!
