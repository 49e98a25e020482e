use regis::cli::CliInvocation;
use regis::config::{validate_config, AppConfig, ConfigError, ConfigManager};
use regis::json::{merge_json_values, parse_json_text, JsonValue};
use regis::model::BoundaryCommandResult;
use regis::session::{authorization_from_output, targets_from_output};
use regis::text::trim_text;

fn ok_run(stdout: &str) -> BoundaryCommandResult {
    BoundaryCommandResult::from_exit(Some(0), stdout.to_string(), String::new(), "boundary".to_string())
}

#[test]
fn target_without_id_is_kept_with_empty_id() {
    let out = r#"{"items":[{"name":"db","type":"tcp","default_port":5432}]}"#;
    let ts = targets_from_output(&ok_run(out)).unwrap();
    assert_eq!(ts.len(), 1);
    assert_eq!(ts[0].id, "");
    assert_eq!(ts[0].name, "db");
    assert_eq!(ts[0].target_type, "tcp");
    assert_eq!(ts[0].default_port, Some(5432));
    assert_eq!(ts[0].address, None);
}

#[test]
fn authorize_session_for_t_123() {
    let inv = CliInvocation::authorize_session("boundary", "https://gw.example.com", "t_123", None);
    assert_eq!(
        inv.full_args(),
        vec!["targets", "authorize-session", "-id", "t_123", "-format", "json", "-addr", "https://gw.example.com"]
    );
    assert_eq!(inv.timeout_seconds, 30);
    let out = r#"{"authorization_token":"at_1","session_id":"s_1","target_id":"t_123","scope_id":"p_1"}"#;
    let a = authorization_from_output(&ok_run(out)).unwrap();
    assert!(!a.session_id.is_empty());
    assert_eq!(a.session_id, "s_1");
    assert_eq!(a.target_id, "t_123");
    assert_eq!(a.authorization_token, "at_1");
    assert_eq!(a.host_id, None);
    assert_eq!(a.connection_limit, -1);
}

#[test]
fn invalid_server_url_is_named() {
    let mut config = AppConfig::default();
    config.servers.truncate(1);
    config.servers[0].id = "test-server".to_string();
    config.servers[0].url = "invalid-url".to_string();
    match validate_config(&config) {
        Err(ConfigError::InvalidUrl(id)) => assert_eq!(id, "test-server"),
        other => panic!("expected an invalid URL error, got {:?}", other),
    }
    let result = ConfigManager::new_with_paths("d".to_string(), "d/default.json".to_string(), "d/user.json".to_string(), config);
    assert!(matches!(result, Err(ConfigError::InvalidUrl(_))));
    let mut no_url = AppConfig::default();
    no_url.servers[1].url = String::new();
    match validate_config(&no_url) {
        Err(ConfigError::EmptyServerUrl(id)) => assert_eq!(id, "local-boundary"),
        other => panic!("expected an empty URL error, got {:?}", other),
    }
}

#[test]
fn fractional_numbers_survive_a_merge() {
    let merged = merge_json_values(
        parse_json_text(r#"{"ratio":1,"name":"x"}"#).unwrap(),
        parse_json_text(r#"{"ratio":1.5}"#).unwrap(),
    );
    match merged.get_field("ratio") {
        Some(JsonValue::Number(n)) => {
            assert_eq!(n.text, "1.5");
            assert_eq!(n.as_i64, None);
        }
        _ => panic!("expected a number"),
    }
}

#[test]
fn trim_removes_unicode_white_space() {
    assert_eq!(trim_text("\u{3000} tok en \t\n"), "tok en");
    assert_eq!(trim_text(" \u{a0} "), "");
    assert_eq!(trim_text("x"), "x");
    assert_eq!(trim_text("\u{2028}a\u{85}"), "a");
}
