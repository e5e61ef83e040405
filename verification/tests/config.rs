use sharp::config::{
    default_exceptions, read_config, read_config_with_fallback, ConfigError, SharpConfigBuilder,
};

fn full_builder() -> SharpConfigBuilder {
    SharpConfigBuilder {
        address: Some("0.0.0.0".to_string()),
        port: Some(8080),
        upstream: Some("127.0.0.1:3000".to_string()),
        database_url: Some("sqlite://sharp.sqlite".to_string()),
        exceptions: Some(vec!["/health".to_string()]),
        custom_css: Some("body {}".to_string()),
        redirect_url: Some("/home".to_string()),
    }
}

#[test]
fn full_builder_builds_every_value() {
    let c = read_config(full_builder()).unwrap();
    assert_eq!(c.address, "0.0.0.0");
    assert_eq!(c.port, 8080);
    assert_eq!(c.upstream, "127.0.0.1:3000");
    assert_eq!(c.database_url, "sqlite://sharp.sqlite");
    assert_eq!(c.exceptions, vec!["/health".to_string()]);
    assert_eq!(c.custom_css.unwrap().0, "body {}");
    assert_eq!(c.redirect_url, "/home");
}

#[test]
fn missing_values_get_their_defaults() {
    let b = SharpConfigBuilder {
        address: None,
        exceptions: None,
        custom_css: None,
        redirect_url: None,
        ..full_builder()
    };
    let c = read_config(b).unwrap();
    assert_eq!(c.address, "127.0.0.1");
    assert_eq!(
        c.exceptions,
        vec![
            "/favicon.ico".to_string(),
            "/robots.txt".to_string(),
            "/sitemap.xml".to_string()
        ]
    );
    assert!(c.custom_css.is_none());
    assert_eq!(c.redirect_url, "/");
}

#[test]
fn required_values_are_reported_in_order() {
    let no_port = SharpConfigBuilder { port: None, ..full_builder() };
    assert_eq!(read_config(no_port).unwrap_err(), ConfigError::MissingPort);
    let no_upstream = SharpConfigBuilder { upstream: None, ..full_builder() };
    assert_eq!(read_config(no_upstream).unwrap_err(), ConfigError::MissingUpstream);
    let no_db = SharpConfigBuilder { database_url: None, ..full_builder() };
    assert_eq!(read_config(no_db).unwrap_err(), ConfigError::MissingDatabaseUrl);
    let nothing_at_all = SharpConfigBuilder::empty();
    assert_eq!(read_config(nothing_at_all).unwrap_err(), ConfigError::MissingPort);
}

#[test]
fn merge_prefers_the_main_source() {
    let mut main = SharpConfigBuilder { port: Some(9999), ..SharpConfigBuilder::empty() };
    main.merge(full_builder());
    assert_eq!(main.port, Some(9999));
    assert_eq!(main.upstream, Some("127.0.0.1:3000".to_string()));
    assert_eq!(main.address, Some("0.0.0.0".to_string()));
}

#[test]
fn fallback_fills_what_the_main_source_misses() {
    let main = SharpConfigBuilder { port: None, ..full_builder() };
    let fallback = SharpConfigBuilder { port: Some(1234), ..SharpConfigBuilder::empty() };
    let c = read_config_with_fallback(main, fallback).unwrap();
    assert_eq!(c.port, 1234);
    assert_eq!(c.upstream, "127.0.0.1:3000");
}

#[test]
fn fallback_cannot_mend_a_hole_it_shares() {
    let main = SharpConfigBuilder { upstream: None, ..full_builder() };
    let fallback = SharpConfigBuilder::empty();
    assert_eq!(
        read_config_with_fallback(main, fallback).unwrap_err(),
        ConfigError::MissingUpstream
    );
}

#[test]
fn default_exception_list_names_the_well_known_files() {
    assert_eq!(
        default_exceptions(),
        vec![
            "/favicon.ico".to_string(),
            "/robots.txt".to_string(),
            "/sitemap.xml".to_string()
        ]
    );
}
