use ringfairy::file::{
    config_format, config_path, get_extension_from_path, is_blank, is_remote, list_format, ConfigFormat,
    ListFormat,
};
use ringfairy::settings::{log_level, merge_configs, AppSettings, ClapSettings, ConfigSettings, LogLevel};
use ringfairy::text::{decimal_string, strip_non_alphanumeric};
use ringfairy::Error;

#[test]
fn test_get_extension_from_valid_path() {
    let path = "file.txt";
    let result = get_extension_from_path(path);
    assert_eq!(result, Some("txt".to_string()));
}

#[test]
fn test_get_extension_from_path_without_extension() {
    let path = "file";
    let result = get_extension_from_path(path);
    assert_eq!(result, None);
}

#[test]
fn test_get_extension_from_path_with_multiple_dots() {
    let path = "archive.tar.gz";
    let result = get_extension_from_path(path);
    assert_eq!(result, Some("gz".to_string()));
}

#[test]
fn extension_is_lower_cased() {
    assert_eq!(get_extension_from_path("./Sites.JSON"), Some("json".to_string()));
    assert_eq!(get_extension_from_path(".hidden"), None);
}

#[test]
fn list_formats() {
    assert_eq!(list_format("sites.json").unwrap(), ListFormat::Json);
    assert_eq!(list_format("sites.TOML").unwrap(), ListFormat::Toml);
    assert_eq!(list_format("sites.csv").unwrap(), ListFormat::Csv);
    assert_eq!(list_format("sites").unwrap(), ListFormat::Json);
    match list_format("sites.yaml") {
        Err(Error::UnsupportedFormat { extension }) => assert_eq!(extension, "yaml"),
        other => panic!("unexpected result {:?}", other),
    }
}

#[test]
fn config_formats() {
    assert_eq!(config_format("a.toml", "x = 1").unwrap(), Some(ConfigFormat::Toml));
    assert_eq!(config_format("a.json", "{}").unwrap(), Some(ConfigFormat::Json));
    assert_eq!(config_format("a.yaml", " \n\t").unwrap(), None);
    match config_format("ringfairy", "x = 1") {
        Err(Error::UnsupportedFormat { extension }) => assert_eq!(extension, ""),
        other => panic!("unexpected result {:?}", other),
    }
}

#[test]
fn blank_and_remote() {
    assert!(is_blank(""));
    assert!(is_blank(" \t\n\u{a0}"));
    assert!(!is_blank(" a "));
    assert!(is_remote("http://x.tld/list.json"));
    assert!(is_remote("https://x.tld/list.json"));
    assert!(!is_remote("./http://x"));
    assert!(!is_remote("http:/x"));
}

#[test]
fn decimal_and_slug_text() {
    assert_eq!(decimal_string(0), "0");
    assert_eq!(decimal_string(7), "7");
    assert_eq!(decimal_string(10), "10");
    assert_eq!(decimal_string(18446744073709551615), "18446744073709551615");
    assert_eq!(strip_non_alphanumeric("https://a-b.c/d_e"), "httpsabcde");
    assert_eq!(strip_non_alphanumeric(""), "");
}

#[test]
fn defaults() {
    let d = AppSettings::default();
    assert_eq!(d.ring_name, "webring");
    assert_eq!(d.filepath_list, vec!["./websites.json".to_string()]);
    assert_eq!(d.audit_retries_max, 2);
    assert_eq!(d.audit_retries_delay, 100);
    assert_eq!(d.next_url_text, "next");
    assert_eq!(d.prev_url_text, "previous");
    assert_eq!(d.log_level, LogLevel::Error);
    assert!(!d.audit && !d.shuffle && !d.no_slug && !d.skip_verify && !d.dry_run);
}

fn bare_cli() -> ClapSettings {
    ClapSettings {
        input_path: None,
        filepath_config: None,
        json_list: Vec::new(),
        toml_list: Vec::new(),
        filepath_list: Vec::new(),
        filename_template_redirect: None,
        filename_template_random: None,
        path_output: None,
        path_assets: None,
        path_templates: None,
        base_url: None,
        next_url_text: None,
        prev_url_text: None,
        ring_name: None,
        ring_description: None,
        ring_owner: None,
        ring_owner_site: None,
        audit: false,
        audit_retries_max: None,
        audit_retries_delay: None,
        client_user_agent: None,
        client_header: None,
        shuffle: false,
        verbose: 0,
        no_slug: false,
        skip_minify: false,
        skip_verify: false,
        dry_run: false,
    }
}

#[test]
fn command_line_wins_over_config_over_defaults() {
    let mut cli = bare_cli();
    cli.ring_name = Some("cli ring".to_string());
    cli.filepath_list = vec!["a.json".to_string(), "b.json".to_string()];
    cli.json_list = vec!["[]".to_string()];
    cli.audit_retries_max = Some(5);
    let config = ConfigSettings {
        ring_name: Some("config ring".to_string()),
        base_url: Some("https://ring.tld".to_string()),
        filepath_list: Some(vec!["b.json".to_string(), "c.csv".to_string(), "a.json".to_string()]),
        json_list: Some(vec!["[{}]".to_string()]),
        audit_retries_max: Some(9),
        audit_retries_delay: Some(7),
        shuffle: Some(true),
        audit: Some(false),
        ..Default::default()
    };
    let s = merge_configs(cli, config);
    assert_eq!(s.ring_name, "cli ring");
    assert_eq!(s.base_url, "https://ring.tld");
    assert_eq!(s.ring_owner, "Webring Organization or Person");
    assert_eq!(s.filepath_list, vec!["a.json", "b.json", "c.csv"]);
    assert_eq!(s.json_lists, vec!["[]", "[{}]"]);
    assert!(s.toml_lists.is_empty());
    assert_eq!(s.audit_retries_max, 5);
    assert_eq!(s.audit_retries_delay, 7);
    assert!(s.shuffle);
    assert!(!s.audit);
}

#[test]
fn empty_sources_give_the_defaults_but_no_list() {
    let s = merge_configs(bare_cli(), ConfigSettings::default());
    assert_eq!(s.ring_name, "webring");
    assert!(s.filepath_list.is_empty());
    assert_eq!(s.log_level, LogLevel::Error);
}

#[test]
fn log_levels() {
    assert_eq!(log_level(0, None), LogLevel::Error);
    assert_eq!(log_level(0, Some(true)), LogLevel::Warn);
    assert_eq!(log_level(1, Some(false)), LogLevel::Warn);
    assert_eq!(log_level(2, None), LogLevel::Info);
    assert_eq!(log_level(3, None), LogLevel::Debug);
    assert_eq!(log_level(9, Some(true)), LogLevel::Trace);
}

#[test]
fn config_path_choice() {
    assert_eq!(
        config_path(Some("conf".to_string()), true, Some("x.toml".to_string())),
        Some("conf/ringfairy.toml".to_string())
    );
    assert_eq!(
        config_path(Some("my.json".to_string()), false, Some("x.toml".to_string())),
        Some("my.json".to_string())
    );
    assert_eq!(
        config_path(None, false, Some("./ringfairy.toml".to_string())),
        Some("./ringfairy.toml".to_string())
    );
    assert_eq!(config_path(None, false, None), None);
}
