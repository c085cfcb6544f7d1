use web_distributor::config::Config;
use web_distributor::config::ConfigError;
use web_distributor::config::default_config;
use web_distributor::config::default_config_path;
use web_distributor::config::default_config_text;
use web_distributor::toml_load::config_from_table;
use web_distributor::toml_load::read_config;

fn load_ok(text: &str) -> Config {
    match read_config(Some(text)) {
        Ok((c, w)) => {
            assert!(w.is_none());
            c
        },
        Err(e) => panic!("expected a configuration, got: {}", e.describe()),
    }
}

fn load_err(text: &str) -> ConfigError {
    match read_config(Some(text)) {
        Ok(_) => panic!("expected an error"),
        Err(e) => e,
    }
}

#[test]
fn defaults_documented() {
    let c = default_config();
    assert_eq!(c.home, "/etc/web-distributor");
    assert_eq!(c.acme_redirect_configs, "/etc/acme-redirect.d");
    assert!(c.mapping.is_empty());
    assert_eq!(default_config_path(), "/etc/web-distributor.toml");
}

#[test]
fn first_run_writes_defaults_and_reload_is_identical() {
    // A missing file yields the default configuration plus the document to
    // persist; loading that document right back yields the identical
    // configuration and nothing further to write.
    let (c, w) = read_config(None).unwrap();
    let text = w.expect("a first run must persist the defaults");
    assert_eq!(text, default_config_text());
    let (c2, w2) = read_config(Some(&text)).unwrap();
    assert!(w2.is_none());
    assert_eq!(c.home, c2.home);
    assert_eq!(c.acme_redirect_configs, c2.acme_redirect_configs);
    assert_eq!(c.mapping, c2.mapping);
    assert!(c2.mapping.is_empty());
    assert_eq!(c2.home, "/etc/web-distributor");
    assert_eq!(c2.acme_redirect_configs, "/etc/acme-redirect.d");
}

#[test]
fn full_document_loads() {
    let text = "home = \"/srv/wd\"\nacme_redirect_configs = \"/srv/acme\"\n\n[map]\n\"a.example.com\" = \"127.0.0.1:8080\"\n\"b.example.com\" = \"127.0.0.1:9090\"\n";
    let c = load_ok(text);
    assert_eq!(c.home, "/srv/wd");
    assert_eq!(c.acme_redirect_configs, "/srv/acme");
    assert_eq!(c.mapping.len(), 2);
    assert!(c.mapping.contains(&("a.example.com".to_string(), "127.0.0.1:8080".to_string())));
    assert!(c.mapping.contains(&("b.example.com".to_string(), "127.0.0.1:9090".to_string())));
}

#[test]
fn unknown_keys_tolerated() {
    let text = "home = \"/srv/wd\"\nacme_redirect_configs = \"/srv/acme\"\nextra = 7\n\n[map]\n";
    let c = load_ok(text);
    assert_eq!(c.home, "/srv/wd");
    assert!(c.mapping.is_empty());
}

#[test]
fn missing_home_rejected() {
    let text = "acme_redirect_configs = \"/srv/acme\"\n\n[map]\n";
    assert!(matches!(load_err(text), ConfigError::BadHome));
}

#[test]
fn non_string_home_rejected() {
    let text = "home = 3\nacme_redirect_configs = \"/srv/acme\"\n\n[map]\n";
    assert!(matches!(load_err(text), ConfigError::BadHome));
}

#[test]
fn missing_cert_dir_rejected() {
    let text = "home = \"/srv/wd\"\n\n[map]\n";
    assert!(matches!(load_err(text), ConfigError::BadCertDir));
}

#[test]
fn missing_map_rejected() {
    let text = "home = \"/srv/wd\"\nacme_redirect_configs = \"/srv/acme\"\n";
    assert!(matches!(load_err(text), ConfigError::BadMapping));
}

#[test]
fn non_table_map_rejected() {
    let text = "home = \"/srv/wd\"\nacme_redirect_configs = \"/srv/acme\"\nmap = 5\n";
    assert!(matches!(load_err(text), ConfigError::BadMapping));
}

#[test]
fn non_string_map_value_rejected() {
    let text = "home = \"/srv/wd\"\nacme_redirect_configs = \"/srv/acme\"\n\n[map]\n\"a.example.com\" = 8080\n";
    match load_err(text) {
        ConfigError::BadMappingEntry(key) => assert_eq!(key, "a.example.com"),
        other => panic!("wrong error: {}", other.describe()),
    }
}

#[test]
fn unparsable_document_rejected() {
    let text = "home = \"/srv/wd";
    match load_err(text) {
        ConfigError::Unparsable(msg) => assert!(!msg.is_empty()),
        other => panic!("wrong error: {}", other.describe()),
    }
}

#[test]
fn table_extraction_direct() {
    let table: toml::Table =
        "home = \"/h\"\nacme_redirect_configs = \"/a\"\n\n[map]\nx = \"y\"\n".parse().unwrap();
    let c = config_from_table(&table).unwrap();
    assert_eq!(c.home, "/h");
    assert_eq!(c.acme_redirect_configs, "/a");
    assert_eq!(c.mapping, vec![("x".to_string(), "y".to_string())]);
}

#[test]
fn error_descriptions_name_the_field() {
    assert!(ConfigError::BadHome.describe().contains("home"));
    assert!(ConfigError::BadCertDir.describe().contains("acme_redirect_configs"));
    assert!(ConfigError::BadMapping.describe().contains("map"));
    assert!(
        ConfigError::BadMappingEntry("k".to_string()).describe().contains("map.k")
    );
    assert!(ConfigError::Unparsable("boom".to_string()).describe().contains("boom"));
}
