//! Persistent browser configuration (search engine, homepage) and the
//! registry of search engines it may select.

use vstd::prelude::*;

use crate::search_engine::{first_with_id, EngineSpec};
use crate::text::{owned, str_eq};

verus! {

broadcast use vstd::string::group_string_axioms;

/// The engines of the registry, in order.
pub open spec fn registry_engines() -> Seq<EngineSpec> {
    seq![
        EngineSpec {
            id: "duckduckgo"@,
            name: "DuckDuckGo"@,
            url_template: "https://duckduckgo.com/?q={query}"@,
        },
        EngineSpec {
            id: "startpage"@,
            name: "Startpage"@,
            url_template: "https://www.startpage.com/search?q={query}"@,
        },
        EngineSpec {
            id: "brave"@,
            name: "Brave Search"@,
            url_template: "https://search.brave.com/search?q={query}"@,
        },
        EngineSpec {
            id: "ecosia"@,
            name: "Ecosia"@,
            url_template: "https://www.ecosia.org/search?q={query}"@,
        },
    ]
}

/// The id of the engine that a default configuration selects.
pub open spec fn default_search_engine_spec() -> Seq<char> {
    "duckduckgo"@
}

/// A search engine entry available in the browser.
#[derive(Debug)]
pub struct SearchEngine {
    /// Machine-readable identifier (e.g. `"duckduckgo"`).
    pub id: String,
    /// Human-readable display name.
    pub name: String,
    /// URL template: `{query}` is replaced with the encoded search term.
    pub url_template: String,
}

impl View for SearchEngine {
    type V = EngineSpec;

    open spec fn view(&self) -> EngineSpec {
        EngineSpec { id: self.id@, name: self.name@, url_template: self.url_template@ }
    }
}

impl Clone for SearchEngine {
    fn clone(&self) -> (res: Self)
        ensures
            res@ == self@,
    {
        SearchEngine {
            id: self.id.clone(),
            name: self.name.clone(),
            url_template: self.url_template.clone(),
        }
    }
}

fn engine(id: &str, name: &str, url_template: &str) -> (res: SearchEngine)
    ensures
        res@ == (EngineSpec { id: id@, name: name@, url_template: url_template@ }),
{
    SearchEngine { id: owned(id), name: owned(name), url_template: owned(url_template) }
}

/// Built-in registry of available search engines.
pub struct SearchEngineRegistry;

impl SearchEngineRegistry {
    /// The full list of built-in search engines.
    pub fn all() -> (res: Vec<SearchEngine>)
        ensures
            res@.map_values(|e: SearchEngine| e@) == registry_engines(),
    {
        let mut v: Vec<SearchEngine> = Vec::new();
        v.push(engine("duckduckgo", "DuckDuckGo", "https://duckduckgo.com/?q={query}"));
        v.push(engine("startpage", "Startpage", "https://www.startpage.com/search?q={query}"));
        v.push(engine("brave", "Brave Search", "https://search.brave.com/search?q={query}"));
        v.push(engine("ecosia", "Ecosia", "https://www.ecosia.org/search?q={query}"));
        assert(v@.map_values(|e: SearchEngine| e@) =~= registry_engines());
        v
    }

    /// The engine whose id is `id`, if the registry has one.
    pub fn find(id: &str) -> (res: Option<SearchEngine>)
        ensures
            res matches Some(e) ==> first_with_id(registry_engines(), id@) == Some(e@),
            res is None ==> first_with_id(registry_engines(), id@) is None,
    {
        let engines = Self::all();
        let ghost specs = engines@.map_values(|e: SearchEngine| e@);
        let mut i: usize = 0;
        assert(specs.skip(0) =~= specs);
        while i < engines.len()
            invariant
                specs == engines@.map_values(|e: SearchEngine| e@),
                specs == registry_engines(),
                i <= engines@.len(),
                first_with_id(specs, id@) == first_with_id(specs.skip(i as int), id@),
            decreases engines@.len() - i,
        {
            assert(specs.skip(i as int)[0] == engines@[i as int]@);
            if str_eq(engines[i].id.as_str(), id) {
                return Some(engines[i].clone());
            }
            assert(specs.skip(i as int).drop_first() =~= specs.skip(i + 1));
            i = i + 1;
        }
        assert(specs.skip(i as int) =~= Seq::<EngineSpec>::empty());
        None
    }
}

/// Persistent browser configuration (search engine, homepage).
#[derive(Debug)]
pub struct BrowserConfig {
    /// Id of the active search engine (matches [`SearchEngine::id`]).
    pub search_engine: String,
    /// Optional default homepage URL.
    pub homepage: Option<String>,
}

impl Clone for BrowserConfig {
    fn clone(&self) -> (res: Self)
        ensures
            res.search_engine@ == self.search_engine@,
            res.homepage == self.homepage,
    {
        BrowserConfig { search_engine: self.search_engine.clone(), homepage: self.homepage.clone() }
    }
}

impl Default for BrowserConfig {
    fn default() -> (res: Self)
        ensures
            res.search_engine@ == default_search_engine_spec(),
            res.homepage is None,
    {
        BrowserConfig { search_engine: owned("duckduckgo"), homepage: None }
    }
}

impl BrowserConfig {
    /// The configuration that loading yields from what was read and parsed
    /// from the configuration file: the parsed configuration as it is, or
    /// the defaults when there was none (no file, or one that did not parse).
    pub fn from_parsed(parsed: Option<BrowserConfig>) -> (res: Self)
        ensures
            parsed matches Some(c) ==> res.search_engine@ == c.search_engine@ && res.homepage
                == c.homepage,
            parsed is None ==> res.search_engine@ == default_search_engine_spec()
                && res.homepage is None,
    {
        match parsed {
            Some(c) => c,
            None => Self::default(),
        }
    }
}

/// The engine that a default configuration selects is in the registry.
pub proof fn law_default_engine_registered()
    ensures
        first_with_id(registry_engines(), default_search_engine_spec()) == Some(registry_engines()[0]),
{
}

} // verus!
