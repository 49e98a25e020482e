use regis::cli::CliInvocation;
use regis::config::{
    default_file_rotation, default_log_dir, default_max_log_size_mb, token_storage_from_word,
    validate_config, AppConfig, ConfigError, ConfigManager,
};
use regis::logger::{is_log_file, select_logs_to_delete, LogLevel, Logger};
use regis::model::{BoundaryCommandResult, BoundaryConnection, ConnectionType, DetectedRdpClients};
use regis::rdp::{choose_client, client_info_of, default_client, rdp_candidates, rdp_launch_args, RdpError};
use regis::settings::{get_boundary_cli_path, Config, RdpConfig, Server};

#[test]
fn test_log_level_parsing() {
    assert_eq!(Logger::parse_log_level("debug").unwrap(), LogLevel::Debug);
    assert_eq!(Logger::parse_log_level("info").unwrap(), LogLevel::Info);
    assert_eq!(Logger::parse_log_level("warn").unwrap(), LogLevel::Warn);
    assert_eq!(Logger::parse_log_level("error").unwrap(), LogLevel::Error);

    assert!(Logger::parse_log_level("invalid").is_err());
}

#[test]
fn log_level_any_case_and_aliases() {
    assert_eq!(Logger::parse_log_level("WARNING").unwrap(), LogLevel::Warn);
    assert_eq!(Logger::parse_log_level("Trace").unwrap(), LogLevel::Trace);
}

#[test]
fn old_logs_beyond_the_limit_are_deleted() {
    let mb = 1024 * 1024;
    let sizes = vec![600 * 1024, mb, 300 * 1024, 50 * 1024];
    assert_eq!(select_logs_to_delete(&sizes, 1), vec![false, true, false, false]);
    assert_eq!(select_logs_to_delete(&vec![], 1), Vec::<bool>::new());
    assert!(is_log_file("regis_20240101_000000.log"));
    assert!(!is_log_file("other.log"));
    assert!(!is_log_file("regis_20240101.txt"));
}

#[test]
fn invocation_arguments_and_command_line() {
    let inv = CliInvocation::list_targets("/usr/bin/boundary", "https://b.example.com", Some("p_1"));
    assert_eq!(
        inv.full_args(),
        vec!["targets", "list", "-format", "json", "-scope-id", "p_1", "-addr", "https://b.example.com"]
    );
    assert_eq!(inv.command_line(), "/usr/bin/boundary targets list -format json -scope-id p_1");
    let c = CliInvocation::connect("boundary", ConnectionType::RDP, "at_1");
    assert_eq!(c.full_args(), vec!["connect", "rdp", "-authz-token", "at_1"]);
    let v = CliInvocation::validate_token("boundary", "https://b", "tok");
    assert_eq!(v.env, vec![("BOUNDARY_TOKEN".to_string(), "tok".to_string())]);
    let a = CliInvocation::authorize_session("boundary", "https://b", "t_123", Some("h_1"));
    assert_eq!(a.args, vec!["targets", "authorize-session", "-id", "t_123", "-format", "json", "-host-id", "h_1"]);
}

#[test]
fn exit_status_reading() {
    let r = BoundaryCommandResult::from_exit(None, String::new(), "killed".to_string(), "x".to_string());
    assert!(!r.success);
    assert_eq!(r.exit_code, -1);
    let r = BoundaryCommandResult::from_exit(Some(0), "out".to_string(), String::new(), "x".to_string());
    assert!(r.success);
    assert!(r.check_success().is_ok());
}

fn conn(port: u16) -> BoundaryConnection {
    BoundaryConnection {
        session_id: "s".to_string(),
        target_id: "t".to_string(),
        target_name: "n".to_string(),
        connection_type: "rdp".to_string(),
        local_address: "127.0.0.1".to_string(),
        local_port: port,
        status: "active".to_string(),
        created_time: String::new(),
        expiration_time: None,
    }
}

fn rdp(fullscreen: bool, resolution: &str) -> RdpConfig {
    RdpConfig { auto_launch: true, preferred_client: "auto".to_string(), fullscreen, resolution: resolution.to_string() }
}

#[test]
fn rdp_arguments_per_client() {
    let win = rdp_candidates("windows");
    let mstsc = client_info_of(&win[0], "windows");
    assert_eq!(mstsc.name, "Microsoft Terminal Services Client");
    assert_eq!(
        rdp_launch_args("windows", &mstsc, &conn(3390), &rdp(true, "1280x720")),
        vec!["127.0.0.1:3390", "/f", "/w", "1280", "/h", "720"]
    );
    let linux = rdp_candidates("linux");
    assert_eq!(linux.len(), 5);
    let xfree = client_info_of(&linux[0], "linux");
    assert_eq!(
        rdp_launch_args("linux", &xfree, &conn(4000), &rdp(false, "800x600")),
        vec!["/v:127.0.0.1:4000", "/size:800x600"]
    );
    let rdesktop = client_info_of(&linux[1], "linux");
    assert_eq!(rdp_launch_args("linux", &rdesktop, &conn(5), &rdp(true, "auto")), vec!["127.0.0.1:5", "-f"]);
    let mac = rdp_candidates("macos");
    let msrd = client_info_of(&mac[0], "macos");
    assert_eq!(rdp_launch_args("macos", &msrd, &conn(7), &rdp(true, "auto")), vec!["rdp://", "127.0.0.1:7"]);
    assert!(rdp_candidates("plan9").is_empty());
}

#[test]
fn default_and_chosen_client() {
    let linux = rdp_candidates("linux");
    let clients = vec![client_info_of(&linux[2], "linux"), client_info_of(&linux[0], "linux")];
    assert_eq!(default_client("linux", &clients).as_deref(), Some("xfreerdp"));
    assert_eq!(default_client("beos", &clients).as_deref(), Some("remmina"));
    assert_eq!(default_client("linux", &vec![]), None);
    let detected = DetectedRdpClients { clients, default_client: Some("xfreerdp".to_string()), platform: "linux".to_string() };
    assert_eq!(choose_client(&detected, None).unwrap().name, "xfreerdp");
    assert_eq!(choose_client(&detected, Some("remmina")).unwrap().name, "remmina");
    assert!(matches!(choose_client(&detected, Some("vinagre")), Err(RdpError::UnknownClient(_))));
    let none = DetectedRdpClients { clients: vec![], default_client: None, platform: "linux".to_string() };
    assert!(matches!(choose_client(&none, None), Err(RdpError::NoClients)));
}

#[test]
fn user_settings_override_system_settings() {
    let mut system = Config::default();
    assert_eq!(system.logging.level, "info");
    system.logging.component_levels = vec![("net".to_string(), "warn".to_string()), ("ui".to_string(), "info".to_string())];
    let mut user = Config::default();
    user.logging.level = "debug".to_string();
    user.ui.theme = "dark".to_string();
    user.security.timeout_seconds = 99;
    user.logging.component_levels = vec![("ui".to_string(), "trace".to_string()), ("db".to_string(), "error".to_string())];
    system.merge_with_user_config(user);
    assert_eq!(system.logging.level, "debug");
    assert_eq!(system.ui.theme, "dark");
    assert_eq!(system.security.timeout_seconds, 99);
    assert_eq!(
        system.logging.component_levels,
        vec![
            ("net".to_string(), "warn".to_string()),
            ("ui".to_string(), "trace".to_string()),
            ("db".to_string(), "error".to_string())
        ]
    );
}

#[test]
fn server_cli_path_override() {
    let config = Config::default();
    let mut server = Server {
        id: "s".to_string(),
        name: "S".to_string(),
        url: "https://s".to_string(),
        description: String::new(),
        environment: "prod".to_string(),
        region: "eu".to_string(),
        boundary_cli_path: None,
    };
    assert_eq!(get_boundary_cli_path(&server, &config), config.boundary.cli_path);
    server.boundary_cli_path = Some("/opt/boundary".to_string());
    assert_eq!(get_boundary_cli_path(&server, &config), "/opt/boundary");
}

#[test]
fn config_defaults_and_manager() {
    assert_eq!(default_log_dir(), "logs");
    assert_eq!(default_max_log_size_mb(), 10);
    assert!(default_file_rotation());
    assert_eq!(token_storage_from_word("keychain"), Some(true));
    assert_eq!(token_storage_from_word("none"), Some(false));
    assert_eq!(token_storage_from_word("maybe"), None);
    let config = AppConfig::default();
    let manager = ConfigManager::new("/etc/regis".to_string(), config).unwrap();
    assert_eq!(manager.get_default_config_path(), "/etc/regis/default.json");
    assert_eq!(manager.get_user_config_path(), "/etc/regis/user.json");
    assert_eq!(manager.get_config_dir(), "/etc/regis");
    assert_eq!(manager.get_enabled_servers().len(), 2);
    assert_eq!(manager.get_server_by_id("local-boundary").unwrap().name, "Local Development");
    assert!(manager.get_server_by_id("non-existent").is_none());
    assert_eq!(manager.get_boundary_cli_path(), "boundary");
    assert_eq!(manager.get_cli_timeout(), std::time::Duration::from_secs(30));
    assert!(manager.should_minimize_to_tray());
    assert!(manager.should_auto_connect_single_target());
    assert_eq!(manager.get_rdp_client_config("macos").executable, "open");
    assert_eq!(manager.get_rdp_client_config("linux").executable, "mstsc");
}

#[test]
fn invalid_configurations_are_refused() {
    let mut bad_url = AppConfig::default();
    bad_url.servers[0].url = "not a url".to_string();
    assert!(matches!(validate_config(&bad_url), Err(ConfigError::InvalidUrl(_))));
    let mut bad_level = AppConfig::default();
    bad_level.logging.level = "loud".to_string();
    assert!(matches!(validate_config(&bad_level), Err(ConfigError::InvalidLogLevel(_))));
    let mut upper = AppConfig::default();
    upper.logging.level = "INFO".to_string();
    upper.ui.theme = "Dark".to_string();
    assert!(validate_config(&upper).is_ok());
    let mut bad_theme = AppConfig::default();
    bad_theme.ui.theme = "neon".to_string();
    assert!(matches!(validate_config(&bad_theme), Err(ConfigError::InvalidTheme(_))));
    let mut no_id = AppConfig::default();
    no_id.servers[1].id = String::new();
    assert!(matches!(validate_config(&no_id), Err(ConfigError::EmptyServerId)));
    let mut manager = ConfigManager::new_with_paths("d".to_string(), "d/a".to_string(), "d/b".to_string(), AppConfig::default()).unwrap();
    assert!(manager.reload(bad_theme).is_err());
    assert_eq!(manager.get_config().ui.theme, "auto");
}
