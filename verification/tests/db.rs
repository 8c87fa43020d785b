use ncube::db::http;
use ncube::db::sqlite::{Config, Source, UrlParser};

#[test]
fn remove_sqlite_url_prefix() {
    let url1 = "sqlite:///path/to/db";
    let url2 = "/path/to/db";
    let expected = "/path/to/db";

    assert_eq!(UrlParser::remove_url_prefix(url1), Some(expected));
    assert_eq!(UrlParser::remove_url_prefix(url2), None);
}

#[test]
fn parse_sqlite_config_from_url_string() {
    let url1 = "sqlite:///path/to/db";
    let url2 = "sqlite://:memory:";
    let cfg1 = url1.parse::<Config>().unwrap();
    let cfg2 = url2.parse::<Config>().unwrap();
    assert_eq!(cfg1.source, Source::File("/path/to/db".into()));
    assert_eq!(cfg2.source, Source::Memory);
}

#[test]
fn memory_url_is_the_default_config() {
    let config = "sqlite://:memory:".parse::<Config>().unwrap();
    assert_eq!(config, Config::default());
}

#[test]
fn file_url_keeps_the_path() {
    let config = Config::from_str("sqlite://path/to/file.db").unwrap();
    assert_eq!(config.source, Source::File("path/to/file.db".to_string()));
    let config = Config::from_str("sqlite://").unwrap();
    assert_eq!(config.source, Source::File(String::new()));
    let config = Config::from_str("sqlite://:memory:x").unwrap();
    assert_eq!(config.source, Source::File(":memory:x".to_string()));
}

#[test]
fn non_sqlite_url_is_refused() {
    assert!(Config::from_str("postgres://localhost/db").is_err());
    assert!(Config::from_str("sqlite:/").is_err());
    assert!(Config::from_str("").is_err());
    assert!("SQLITE://:memory:".parse::<Config>().is_err());
}

#[test]
fn url_parser_parse_without_prefix_gives_none() {
    assert!(matches!(UrlParser::parse("/path/to/db"), Ok(None)));
    match UrlParser::parse("sqlite://:memory:") {
        Ok(Some(config)) => assert_eq!(config.source, Source::Memory),
        _ => panic!("expected a configuration"),
    }
}

#[test]
fn remove_url_prefix_of_non_ascii_path() {
    assert_eq!(UrlParser::remove_url_prefix("sqlite://dätä.db"), Some("dätä.db"));
    assert_eq!(UrlParser::remove_url_prefix("sqlite:"), None);
}

#[test]
fn http_config_parses_endpoint() {
    let config = "https://example.org".parse::<http::Config>().unwrap();
    assert_eq!(config.endpoint, "https://example.org/");
    let config = http::Config::from_str("http://127.0.0.1:40666/api").unwrap();
    assert_eq!(config.endpoint, "http://127.0.0.1:40666/api");
}

#[test]
fn http_config_refuses_invalid_endpoint() {
    assert!(http::Config::from_str("not a url").is_err());
    assert!(http::Config::from_str("").is_err());
    let error = "::".parse::<http::Config>().unwrap_err();
    assert_eq!(error.to_string(), "HttpConfigError");
}

#[test]
fn http_default_config_is_local_endpoint() {
    assert_eq!(http::Config::default().endpoint, "http://127.0.0.1:40666/");
}

#[test]
fn http_config_url_replaces_path() {
    let config = http::Config::from_str("https://example.com/api").unwrap();
    assert_eq!(config.url("data/report.csv").unwrap(), "https://example.com/data/report.csv");
    assert_eq!(config.url("workspaces").unwrap(), "https://example.com/workspaces");
    assert_eq!(http::Config::default().url("api").unwrap(), "http://127.0.0.1:40666/api");
}

#[test]
fn file_sources_compare_by_path_components() {
    let a = "sqlite://a//b".parse::<Config>().unwrap();
    let b = "sqlite://a/b".parse::<Config>().unwrap();
    let c = "sqlite://a/b/".parse::<Config>().unwrap();
    let d = "sqlite://a/c".parse::<Config>().unwrap();
    assert_eq!(a, b);
    assert_eq!(b, c);
    assert_ne!(b, d);
    assert_ne!(b, Config::default());
    assert_eq!(Source::Memory, Source::Memory);
}

#[test]
fn http_checked_url_needs_a_serialization() {
    let config = http::Config::from_str("https://example.com/api").unwrap();
    assert_eq!(config.checked_url("data").unwrap(), "https://example.com/data");
    let raw = http::Config { endpoint: "https://example.com".to_string() };
    assert_eq!(raw.checked_url("data"), None);
    let not_a_url = http::Config { endpoint: "not a url".to_string() };
    assert_eq!(not_a_url.checked_url("data"), None);
}
