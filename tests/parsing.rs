use regis::error::BoundaryError;
use regis::model::{BoundaryCommandResult, ConnectionType};
use regis::parser::{
    connection_info_from_captures, parse_auth_methods, parse_connection_info, parse_scopes,
    parse_session_authorization, parse_targets,
};
use regis::session::{
    auth_methods_from_output, connection_from_output, gather_scope_targets, oidc_methods,
    targets_from_output,
};
use regis::text::{parse_u16_digits, u16_to_text};

fn run(success: bool, stdout: &str) -> BoundaryCommandResult {
    BoundaryCommandResult {
        success,
        exit_code: if success { 0 } else { 2 },
        stdout: stdout.to_string(),
        stderr: if success { String::new() } else { "permission denied".to_string() },
        command: "boundary".to_string(),
    }
}

#[test]
fn auth_methods_keep_every_item_even_without_id() {
    let out = r#"{"items":[{"id":"amoidc_1","name":"Okta","type":"oidc","description":"SSO"},{"name":"no id","type":"password"},{}]}"#;
    let methods = parse_auth_methods(out).unwrap();
    assert_eq!(methods.len(), 3);
    assert_eq!(methods[0].id, "amoidc_1");
    assert_eq!(methods[0].method_type, "oidc");
    assert_eq!(methods[0].description, "SSO");
    assert_eq!(methods[1].id, "");
    assert_eq!(methods[1].name, "no id");
    assert_eq!(methods[2].name, "");
}

#[test]
fn list_without_items_is_empty() {
    assert_eq!(parse_scopes("{}").unwrap().len(), 0);
    assert_eq!(parse_scopes("[]").unwrap().len(), 0);
}

#[test]
fn list_with_scalar_top_level_is_a_parse_error() {
    assert!(matches!(parse_scopes("42"), Err(BoundaryError::Parse(_))));
    assert!(matches!(parse_scopes("not json"), Err(BoundaryError::Parse(_))));
}

#[test]
fn targets_read_address_and_port() {
    let out = r#"{"items":[{"id":"ttcp_1","name":"db","type":"tcp","address":"10.1.1.1","default_port":5432},{"id":"t2","default_port":70000}]}"#;
    let targets = parse_targets(out).unwrap();
    assert_eq!(targets.len(), 2);
    assert_eq!(targets[0].address.as_deref(), Some("10.1.1.1"));
    assert_eq!(targets[0].default_port, Some(5432));
    assert_eq!(targets[1].address, None);
    assert_eq!(targets[1].default_port, None);
}

#[test]
fn failed_run_is_a_cli_error() {
    let r = auth_methods_from_output(&run(false, "{}"));
    match r {
        Err(BoundaryError::Cli { exit_code, stderr }) => {
            assert_eq!(exit_code, 2);
            assert_eq!(stderr, "permission denied");
        }
        _ => panic!("expected a CLI error"),
    }
}

#[test]
fn connection_info_from_text() {
    let out = "Proxy listening information:\n  Address:             10.0.0.5\n  Connection Limit:    1\n  Port:                4000\n";
    let (addr, port) = parse_connection_info(out).unwrap();
    assert_eq!(addr, "10.0.0.5");
    assert_eq!(port, 4000);
}

#[test]
fn connection_info_port_zero_or_missing_fails() {
    assert!(matches!(
        parse_connection_info("Address: 10.0.0.5\nPort: 0\n"),
        Err(BoundaryError::ConnectionParse(_))
    ));
    assert!(matches!(
        parse_connection_info("Address: 10.0.0.5\n"),
        Err(BoundaryError::ConnectionParse(_))
    ));
    assert!(matches!(
        parse_connection_info("Address: 10.0.0.5\nPort: 99999\n"),
        Err(BoundaryError::ConnectionParse(_))
    ));
}

#[test]
fn connection_info_defaults_to_loopback() {
    let (addr, port) = parse_connection_info("Port: 61991").unwrap();
    assert_eq!(addr, "127.0.0.1");
    assert_eq!(port, 61991);
    let (addr, port) = connection_info_from_captures(None, Some("22".to_string())).unwrap();
    assert_eq!(addr, "127.0.0.1");
    assert_eq!(port, 22);
}

#[test]
fn digits_parse_and_render() {
    assert_eq!(parse_u16_digits("65535"), Some(65535));
    assert_eq!(parse_u16_digits("65536"), None);
    assert_eq!(parse_u16_digits(""), None);
    assert_eq!(parse_u16_digits("4a"), None);
    assert_eq!(u16_to_text(0), "0");
    assert_eq!(u16_to_text(3389), "3389");
}

#[test]
fn authorization_requires_token_and_session() {
    let ok = r#"{"authorization_token":"at_x","session_id":"s_1","target_id":"t_123","user_id":"u_1","scope_id":"p_1","created_time":"2024-01-01T00:00:00Z","connection_limit":1}"#;
    let a = parse_session_authorization(ok).unwrap();
    assert_eq!(a.session_id, "s_1");
    assert_eq!(a.connection_limit, 1);
    assert_eq!(a.host_id, None);
    let no_limit = r#"{"authorization_token":"at_x","session_id":"s_1"}"#;
    assert_eq!(parse_session_authorization(no_limit).unwrap().connection_limit, -1);
    let missing = r#"{"session_id":"s_1"}"#;
    assert!(matches!(parse_session_authorization(missing), Err(BoundaryError::Parse(_))));
    assert!(matches!(parse_session_authorization("[]"), Err(BoundaryError::Parse(_))));
}

#[test]
fn scope_fan_out_skips_failed_scopes() {
    let first = targets_from_output(&run(true, r#"{"items":[{"id":"a"},{"id":"b"}]}"#));
    let failed = targets_from_output(&run(false, ""));
    let third = targets_from_output(&run(true, r#"{"items":[{"id":"c"}]}"#));
    let all = gather_scope_targets(&vec![first, failed, third]);
    let ids: Vec<&str> = all.iter().map(|t| t.id.as_str()).collect();
    assert_eq!(ids, vec!["a", "b", "c"]);
}

#[test]
fn oidc_methods_filter_ignoring_case() {
    let methods = parse_auth_methods(r#"{"items":[{"id":"1","type":"password"},{"id":"2","type":"OIDC"},{"id":"3","type":"oidc"}]}"#).unwrap();
    let oidc = oidc_methods(&methods).unwrap();
    assert_eq!(oidc.len(), 2);
    assert_eq!(oidc[0].id, "2");
    assert_eq!(oidc[1].id, "3");
    let none = parse_auth_methods(r#"{"items":[{"id":"1","type":"password"}]}"#).unwrap();
    assert!(oidc_methods(&none).is_err());
}

#[test]
fn connection_type_names_in_any_case() {
    assert_eq!(ConnectionType::parse("RDP"), Some(ConnectionType::RDP));
    assert_eq!(ConnectionType::parse("Ssh"), Some(ConnectionType::SSH));
    assert_eq!(ConnectionType::parse("ftp"), None);
    assert_eq!(ConnectionType::HTTP.as_str(), "http");
}

#[test]
fn connection_from_connect_output() {
    let auth = parse_session_authorization(r#"{"authorization_token":"at","session_id":"s_9","target_id":"t_1","expiration_time":"2030-01-01T00:00:00Z"}"#).unwrap();
    let c = connection_from_output(&run(true, "Address: 127.0.0.1\nPort: 5555"), &auth, ConnectionType::SSH, "web", "now".to_string()).unwrap();
    assert_eq!(c.session_id, "s_9");
    assert_eq!(c.target_id, "t_1");
    assert_eq!(c.target_name, "web");
    assert_eq!(c.connection_type, "ssh");
    assert_eq!(c.local_port, 5555);
    assert_eq!(c.status, "active");
    assert_eq!(c.expiration_time.as_deref(), Some("2030-01-01T00:00:00Z"));
    let bad = connection_from_output(&run(true, "nothing"), &auth, ConnectionType::SSH, "web", "now".to_string());
    assert!(matches!(bad, Err(BoundaryError::ConnectionParse(_))));
}
