use fs_browser::search_engine::{url_encode, BrowserConfig, SearchEngine, SearchEngineRegistry, default_engine_id};

#[test]
fn brave_is_default() {
    let cfg = BrowserConfig::default();
    assert_eq!(cfg.active_engine().id, "brave");
}

#[test]
fn build_url_encodes_query() {
    let engine = SearchEngineRegistry::find("brave");
    let url = engine.build_url("kanidm identity provider");
    assert_eq!(
        url,
        "https://search.brave.com/search?q=kanidm+identity+provider"
    );
}

#[test]
fn unknown_engine_falls_back_to_brave() {
    let engine = SearchEngineRegistry::find("nonexistent");
    assert_eq!(engine.id, "brave");
}

#[test]
fn all_engines_have_query_placeholder() {
    for e in SearchEngineRegistry::all() {
        assert!(
            e.url_template.contains("{query}"),
            "Engine '{}' is missing {{query}} placeholder",
            e.id,
        );
    }
}

#[test]
fn registry_lists_six_engines_in_display_order() {
    let ids: Vec<String> = SearchEngineRegistry::all().into_iter().map(|e| e.id).collect();
    assert_eq!(ids, vec!["brave", "ecosia", "startpage", "kagi", "duckduckgo", "searxng"]);
}

#[test]
fn registry_excludes_google_bing_yandex() {
    for e in SearchEngineRegistry::all() {
        let name = e.name.to_lowercase();
        assert!(!name.contains("google") && !name.contains("bing") && !name.contains("yandex"));
    }
}

#[test]
fn find_known_engine_returns_it() {
    let e = SearchEngineRegistry::find("kagi");
    assert_eq!(e.name, "Kagi");
    assert_eq!(e.url_template, "https://kagi.com/search?q={query}");
}

#[test]
fn config_selects_configured_engine() {
    let cfg = BrowserConfig { search_engine: "duckduckgo".to_string() };
    assert_eq!(cfg.build_search_url("rust lang"), "https://duckduckgo.com/?q=rust+lang");
}

#[test]
fn config_with_unknown_engine_searches_with_brave() {
    let cfg = BrowserConfig { search_engine: "google".to_string() };
    assert_eq!(cfg.active_engine().id, "brave");
}

#[test]
fn default_engine_id_is_brave() {
    assert_eq!(default_engine_id(), "brave");
}

#[test]
fn url_encode_keeps_unreserved_and_alphanumerics() {
    assert_eq!(url_encode("aZ09-_.~"), "aZ09-_.~");
}

#[test]
fn url_encode_space_becomes_plus() {
    assert_eq!(url_encode("a b"), "a+b");
}

#[test]
fn url_encode_percent_encodes_symbols() {
    assert_eq!(url_encode("a&b=c/?#"), "a%26b%3Dc%2F%3F%23");
    assert_eq!(url_encode("\n"), "%0A");
}

#[test]
fn url_encode_non_ascii_uses_utf8_bytes() {
    // Alphanumeric letters outside ASCII are kept as they are.
    assert_eq!(url_encode("é"), "é");
    // Other characters become their UTF-8 bytes, each percent-encoded.
    assert_eq!(url_encode("€"), "%E2%82%AC");
    assert_eq!(url_encode("\u{a0}"), "%C2%A0");
    assert_eq!(url_encode("\u{1f600}"), "%F0%9F%98%80");
}

#[test]
fn build_url_encodes_euro_sign() {
    let e = SearchEngineRegistry::find("brave");
    assert_eq!(e.build_url("€"), "https://search.brave.com/search?q=%E2%82%AC");
}

#[test]
fn build_url_replaces_every_placeholder() {
    let e = SearchEngine::new("x", "X", "https://x.test/?q={query}&again={query}");
    assert_eq!(e.build_url("a b"), "https://x.test/?q=a+b&again=a+b");
}

#[test]
fn build_url_without_placeholder_keeps_template() {
    let e = SearchEngine::new("x", "X", "https://x.test/");
    assert_eq!(e.build_url("query"), "https://x.test/");
}

#[test]
fn engine_clone_keeps_fields() {
    let e = SearchEngine::new("id", "Name", "tpl{query}");
    let c = e.clone();
    assert_eq!((c.id, c.name, c.url_template), (e.id, e.name, e.url_template));
}
