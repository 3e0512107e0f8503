use fs_browser::config::{BrowserConfig, SearchEngineRegistry};

#[test]
fn default_search_engine_exists_in_registry() {
    let cfg = BrowserConfig::default();
    assert!(SearchEngineRegistry::find(&cfg.search_engine).is_some());
}

#[test]
fn registry_is_non_empty() {
    assert!(!SearchEngineRegistry::all().is_empty());
}

#[test]
fn find_unknown_returns_none() {
    assert!(SearchEngineRegistry::find("unknown").is_none());
}

#[test]
fn config_registry_order() {
    let ids: Vec<String> = SearchEngineRegistry::all().into_iter().map(|e| e.id).collect();
    assert_eq!(ids, vec!["duckduckgo", "startpage", "brave", "ecosia"]);
}

#[test]
fn config_find_known_engine() {
    let e = SearchEngineRegistry::find("ecosia").unwrap();
    assert_eq!(e.name, "Ecosia");
    assert_eq!(e.url_template, "https://www.ecosia.org/search?q={query}");
}

#[test]
fn config_from_nothing_parsed_gives_defaults() {
    let cfg = BrowserConfig::from_parsed(None);
    assert_eq!(cfg.search_engine, "duckduckgo");
    assert!(cfg.homepage.is_none());
}

#[test]
fn config_from_parsed_keeps_it() {
    let parsed = BrowserConfig {
        search_engine: "brave".to_string(),
        homepage: Some("https://example.org".to_string()),
    };
    let cfg = BrowserConfig::from_parsed(Some(parsed));
    assert_eq!(cfg.search_engine, "brave");
    assert_eq!(cfg.homepage.as_deref(), Some("https://example.org"));
}
