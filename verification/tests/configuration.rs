use rollbar_rs::configuration::{
    set_code_version, set_context, set_custom, set_environment, set_framework, set_host, set_log_level,
    set_platform, set_token, unset_token, Configuration,
};
use rollbar_rs::level::Level;

fn text_json(s: &str) -> serde_json::Value {
    serde_json::Value::String(s.to_string())
}

#[test]
fn test_global_config() {
    let mut config = Configuration::new("linux");
    set_token(&mut config, "test_token");
    assert_eq!(config.access_token, Some("test_token".to_string()));
}

#[test]
fn new_configuration_has_only_platform_and_info() {
    let config = Configuration::new("freebsd");
    assert_eq!(config.access_token, None);
    assert_eq!(config.environment, None);
    assert_eq!(config.host, None);
    assert_eq!(config.code_version, None);
    assert_eq!(config.log_level, Level::Info);
    assert_eq!(config.platform, Some("freebsd".to_string()));
    assert_eq!(config.framework, None);
    assert_eq!(config.context, None);
    assert!(config.custom.is_none());
}

#[test]
fn each_setter_changes_its_own_field() {
    let mut config = Configuration::new("linux");
    set_environment(&mut config, "production");
    set_host(&mut config, "web-1");
    set_code_version(&mut config, "1.2.3");
    set_log_level(&mut config, Level::Error);
    set_platform(&mut config, "browser");
    set_framework(&mut config, "axum");
    set_context(&mut config, "project#index");
    assert_eq!(config.access_token, None);
    assert_eq!(config.environment, Some("production".to_string()));
    assert_eq!(config.host, Some("web-1".to_string()));
    assert_eq!(config.code_version, Some("1.2.3".to_string()));
    assert_eq!(config.log_level, Level::Error);
    assert_eq!(config.platform, Some("browser".to_string()));
    assert_eq!(config.framework, Some("axum".to_string()));
    assert_eq!(config.context, Some("project#index".to_string()));
}

#[test]
fn unset_token_removes_the_credential() {
    let mut config = Configuration::new("linux");
    set_token(&mut config, "tok");
    unset_token(&mut config);
    assert_eq!(config.access_token, None);
    assert_eq!(config.platform, Some("linux".to_string()));
}

#[test]
fn set_custom_creates_the_map_and_upserts() {
    let mut config = Configuration::new("linux");
    set_custom(&mut config, "owner", text_json("Bob"));
    set_custom(&mut config, "team", text_json("core"));
    set_custom(&mut config, "owner", text_json("Alice"));
    let custom = config.custom.as_ref().unwrap();
    assert_eq!(custom.len(), 2);
    assert_eq!(custom.get("owner"), Some(&text_json("Alice")));
    assert_eq!(custom.get("team"), Some(&text_json("core")));
    assert_eq!(custom.get("missing"), None);
}

#[test]
fn duplicate_configuration_is_independent() {
    let mut config = Configuration::new("linux");
    set_token(&mut config, "tok");
    set_custom(&mut config, "a", text_json("1"));
    let copy = config.duplicate();
    set_token(&mut config, "other");
    set_custom(&mut config, "a", text_json("2"));
    assert_eq!(copy.access_token, Some("tok".to_string()));
    assert_eq!(copy.custom.as_ref().unwrap().get("a"), Some(&text_json("1")));
    assert_eq!(copy.log_level, Level::Info);
}
