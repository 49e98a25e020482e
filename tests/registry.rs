use regis::error::BoundaryError;
use regis::model::{BoundaryCommandResult, BoundaryConnection, ConnectionType};
use regis::parser::parse_session_authorization;
use regis::registry::{health_check_from_output, idle_stats, ConnectionRegistry, HealthCheck};
use regis::session::connection_from_output;

fn conn(id: &str) -> BoundaryConnection {
    BoundaryConnection {
        session_id: id.to_string(),
        target_id: "t".to_string(),
        target_name: "target".to_string(),
        connection_type: "tcp".to_string(),
        local_address: "127.0.0.1".to_string(),
        local_port: 4000,
        status: "active".to_string(),
        created_time: "now".to_string(),
        expiration_time: None,
    }
}

fn run(success: bool, stdout: &str) -> BoundaryCommandResult {
    BoundaryCommandResult {
        success,
        exit_code: if success { 0 } else { 1 },
        stdout: stdout.to_string(),
        stderr: String::new(),
        command: "boundary".to_string(),
    }
}

fn check(id: &str, status: &str, failed: bool) -> HealthCheck {
    HealthCheck { session_id: id.to_string(), status: status.to_string(), failed, response_time_ms: None }
}

#[test]
fn two_connections_then_remove_one_keeps_other_health() {
    let mut reg = ConnectionRegistry::new();
    reg.add(conn("s_a"));
    reg.add(conn("s_b"));
    assert_eq!(reg.connection_count(), 2);
    reg.set_monitoring_enabled(true);
    let plan = reg.tick_plan().unwrap();
    assert_eq!(plan.len(), 2);
    let checks = vec![check("s_a", "healthy", false), check("s_b", "healthy", false)];
    assert!(reg.finish_tick(checks, "t1".to_string()).monitoring_enabled);
    let removed = reg.remove("s_a").unwrap();
    assert_eq!(removed.session_id, "s_a");
    assert_eq!(reg.connection_count(), 1);
    assert_eq!(reg.get_session_health("s_b").unwrap().status, "healthy");
    assert_eq!(reg.get_session_health("s_a").unwrap().status, "healthy");
    assert!(matches!(reg.remove("s_a"), Err(BoundaryError::NotFound)));
}

#[test]
fn adding_same_session_supersedes() {
    let mut reg = ConnectionRegistry::new();
    reg.add(conn("s_a"));
    let mut again = conn("s_a");
    again.local_port = 5000;
    reg.add(again);
    assert_eq!(reg.connection_count(), 1);
    assert_eq!(reg.find_connection("s_a").unwrap().local_port, 5000);
    assert!(reg.find_connection("s_z").is_none());
}

#[test]
fn disabled_tick_checks_nothing_and_writes_nothing() {
    let mut reg = ConnectionRegistry::new();
    reg.add(conn("s_a"));
    assert!(!reg.is_monitoring_enabled());
    assert!(reg.tick_plan().is_none());
    let stats = reg.finish_tick(vec![check("s_a", "healthy", false)], "t".to_string());
    assert_eq!(stats.total_sessions, 0);
    assert_eq!(stats.active_sessions, 0);
    assert_eq!(stats.failed_sessions, 0);
    assert!(!stats.monitoring_enabled);
    assert_eq!(stats.last_check, "t");
    let idle = idle_stats("t0".to_string());
    assert_eq!((idle.total_sessions, idle.active_sessions, idle.failed_sessions), (0, 0, 0));
    assert!(!idle.monitoring_enabled);
    assert_eq!(reg.connection_count(), 1);
    assert!(matches!(reg.get_session_health("s_a"), Err(BoundaryError::NotFound)));
}

#[test]
fn failures_accumulate_and_success_clears_the_run() {
    let mut reg = ConnectionRegistry::new();
    reg.add(conn("s_a"));
    reg.set_monitoring_enabled(true);
    reg.finish_tick(vec![check("s_a", "unhealthy", true)], "t1".to_string());
    let stats = reg.finish_tick(vec![check("s_a", "error", true)], "t2".to_string());
    assert_eq!(stats.total_sessions, 1);
    assert_eq!(stats.active_sessions, 0);
    assert_eq!(stats.failed_sessions, 1);
    let h = reg.get_session_health("s_a").unwrap();
    assert_eq!(h.error_count, 2);
    assert_eq!(h.consecutive_failures, 2);
    assert_eq!(h.last_check, "t2");
    reg.finish_tick(vec![check("s_a", "healthy", false)], "t3".to_string());
    let h = reg.get_session_health("s_a").unwrap();
    assert_eq!(h.error_count, 2);
    assert_eq!(h.consecutive_failures, 0);
    assert_eq!(reg.connection_count(), 1);
    let stats = reg.monitoring_stats("t4".to_string());
    assert_eq!(stats.active_sessions, 1);
    assert_eq!(stats.failed_sessions, 0);
    assert!(stats.monitoring_enabled);
}

#[test]
fn health_status_taxonomy() {
    let active = health_check_from_output("s", &Ok(run(true, r#"{"status":"active"}"#)), Some(12));
    assert_eq!(active.status, "healthy");
    assert!(!active.failed);
    assert_eq!(active.response_time_ms, Some(12));
    let pending = health_check_from_output("s", &Ok(run(true, r#"{"status":"pending"}"#)), Some(3));
    assert_eq!(pending.status, "session_status_pending");
    let unknown = health_check_from_output("s", &Ok(run(true, "{}")), None);
    assert_eq!(unknown.status, "session_status_unknown");
    let failed = health_check_from_output("s", &Ok(run(false, "")), Some(3));
    assert_eq!(failed.status, "unhealthy");
    assert!(failed.failed);
    assert_eq!(failed.response_time_ms, None);
    let broken = health_check_from_output("s", &Err(BoundaryError::Process("timed out".to_string())), None);
    assert_eq!(broken.status, "error");
    assert!(broken.failed);
}

#[test]
fn authorize_connect_register_and_monitor() {
    let auth = parse_session_authorization(
        r#"{"authorization_token":"at_abc","session_id":"s_777","target_id":"t_123","user_id":"u_1","scope_id":"p_1","created_time":"2024-01-01T00:00:00Z"}"#,
    )
    .unwrap();
    assert!(!auth.session_id.is_empty());
    assert_eq!(auth.target_id, "t_123");
    let c = connection_from_output(
        &run(true, "Address: 127.0.0.1\nPort: 3390\n"),
        &auth,
        ConnectionType::RDP,
        "Windows Server",
        "2024-01-01T00:00:01Z".to_string(),
    )
    .unwrap();
    assert_ne!(c.local_port, 0);
    assert_eq!(c.connection_type, "rdp");
    let mut reg = ConnectionRegistry::new();
    reg.add(c);
    reg.set_monitoring_enabled(true);
    let plan = reg.tick_plan().unwrap();
    let checks: Vec<HealthCheck> = plan
        .iter()
        .map(|c| health_check_from_output(&c.session_id, &Ok(run(true, r#"{"status": "active"}"#)), Some(5)))
        .collect();
    assert!(reg.finish_tick(checks, "t".to_string()).monitoring_enabled);
    assert_eq!(reg.get_session_health("s_777").unwrap().status, "healthy");
}
