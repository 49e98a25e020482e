//! The desktop client's settings: the system settings, overridden field by
//! field by the user's, and the list of gateway servers.

use vstd::prelude::*;
use crate::cli::owned;
use crate::text::str_eq;

verus! {

/// Logging settings.
#[derive(Clone, Debug)]
pub struct LoggingConfig {
    pub level: String,
    pub enabled: bool,
    pub console_output: bool,
    pub file_output: bool,
    pub log_directory: String,
    pub max_file_size_mb: u64,
    pub max_files: usize,
    pub log_format: String,
    /// Per-component levels, one entry per component.
    pub component_levels: Vec<(String, String)>,
}

/// Window and tray behaviour.
#[derive(Clone, Debug)]
pub struct UIConfig {
    pub theme: String,
    pub startup_behavior: String,
    pub minimize_to_tray: bool,
    pub confirm_exit: bool,
    pub remember_window_state: bool,
}

/// Sign-in and transport security settings.
#[derive(Clone, Debug)]
pub struct SecurityConfig {
    pub auto_logout_minutes: u32,
    pub remember_auth: bool,
    pub ssl_verify: bool,
    pub timeout_seconds: u32,
}

/// How connections are made.
#[derive(Clone, Debug)]
pub struct ConnectionConfig {
    pub auto_connect_single_target: bool,
    pub connection_timeout_seconds: u32,
    pub retry_attempts: u32,
    pub retry_delay_seconds: u32,
}

/// How remote-desktop clients are launched.
#[derive(Clone, Debug)]
pub struct RdpConfig {
    pub auto_launch: bool,
    pub preferred_client: String,
    pub fullscreen: bool,
    /// `auto`, or `<width>x<height>`.
    pub resolution: String,
}

/// Developer settings.
#[derive(Clone, Debug)]
pub struct AdvancedConfig {
    pub debug_mode: bool,
    pub developer_tools: bool,
    pub crash_reporting: bool,
    pub telemetry: bool,
}

/// Where the gateway CLI is.
#[derive(Clone, Debug)]
pub struct BoundaryConfig {
    pub cli_path: String,
    pub auto_detect: bool,
}

/// All settings.
#[derive(Clone, Debug)]
pub struct Config {
    pub logging: LoggingConfig,
    pub ui: UIConfig,
    pub security: SecurityConfig,
    pub connection: ConnectionConfig,
    pub rdp: RdpConfig,
    pub advanced: AdvancedConfig,
    pub boundary: BoundaryConfig,
}

/// A gateway server the user can sign in to.
#[derive(Clone, Debug)]
pub struct Server {
    pub id: String,
    pub name: String,
    pub url: String,
    pub description: String,
    pub environment: String,
    pub region: String,
    /// A CLI to use for this server instead of the configured one.
    pub boundary_cli_path: Option<String>,
}

/// The list of servers.
#[derive(Clone, Debug)]
pub struct ServerConfig {
    pub servers: Vec<Server>,
}

/// The position of the entry of `key`.
pub open spec fn key_position(s: Seq<(String, String)>, key: Seq<char>) -> Option<int>
    decreases s.len(),
{
    if s.len() == 0 {
        None
    } else if s[0].0@ == key {
        Some(0)
    } else {
        match key_position(s.drop_first(), key) {
            Some(k) => Some(k + 1),
            None => None,
        }
    }
}

proof fn lemma_key_position(s: Seq<(String, String)>, key: Seq<char>, i: int)
    requires
        0 <= i <= s.len(),
        forall|j: int| 0 <= j < i ==> s[j].0@ != key,
    ensures
        i < s.len() && s[i].0@ == key ==> key_position(s, key) == Some(i),
        i == s.len() ==> key_position(s, key).is_none(),
    decreases i,
{
    if i > 0 {
        lemma_key_position(s.drop_first(), key, i - 1);
    }
}

/// `s` with the entry of `e`'s key replaced by `e`, or `e` appended.
pub open spec fn upsert_entry(s: Seq<(String, String)>, e: (String, String)) -> Seq<(String, String)> {
    match key_position(s, e.0@) {
        Some(i) => s.update(i, e),
        None => s.push(e),
    }
}

/// `base` with each entry of `over` set in turn.
pub open spec fn with_entries(base: Seq<(String, String)>, over: Seq<(String, String)>) -> Seq<(String, String)>
    decreases over.len(),
{
    if over.len() == 0 {
        base
    } else {
        upsert_entry(with_entries(base, over.drop_last()), over.last())
    }
}

fn set_entry(entries: &mut Vec<(String, String)>, e: (String, String))
    ensures
        final(entries)@ == upsert_entry(old(entries)@, e),
{
    let mut i: usize = 0;
    while i < entries.len()
        invariant
            i <= entries@.len(),
            entries@ == old(entries)@,
            forall|j: int| 0 <= j < i ==> entries@[j].0@ != e.0@,
        decreases entries@.len() - i,
    {
        if str_eq(entries[i].0.as_str(), e.0.as_str()) {
            proof {
                lemma_key_position(entries@, e.0@, i as int);
            }
            entries.set(i, e);
            return;
        }
        i = i + 1;
    }
    proof {
        lemma_key_position(entries@, e.0@, i as int);
    }
    entries.push(e);
}

/// `c` holds the user's value of every setting, and the component levels of
/// `base` with the user's set over them.
pub open spec fn merged_config(base: Config, user: Config, c: Config) -> bool {
    &&& c.logging.level@ == user.logging.level@
    &&& c.logging.enabled == user.logging.enabled
    &&& c.logging.console_output == user.logging.console_output
    &&& c.logging.file_output == user.logging.file_output
    &&& c.logging.log_directory@ == user.logging.log_directory@
    &&& c.logging.max_file_size_mb == user.logging.max_file_size_mb
    &&& c.logging.max_files == user.logging.max_files
    &&& c.logging.log_format@ == user.logging.log_format@
    &&& c.logging.component_levels@ == with_entries(base.logging.component_levels@, user.logging.component_levels@)
    &&& c.ui.theme@ == user.ui.theme@
    &&& c.ui.startup_behavior@ == user.ui.startup_behavior@
    &&& c.ui.minimize_to_tray == user.ui.minimize_to_tray
    &&& c.ui.confirm_exit == user.ui.confirm_exit
    &&& c.ui.remember_window_state == user.ui.remember_window_state
    &&& c.security.auto_logout_minutes == user.security.auto_logout_minutes
    &&& c.security.remember_auth == user.security.remember_auth
    &&& c.security.ssl_verify == user.security.ssl_verify
    &&& c.security.timeout_seconds == user.security.timeout_seconds
    &&& c.connection.auto_connect_single_target == user.connection.auto_connect_single_target
    &&& c.connection.connection_timeout_seconds == user.connection.connection_timeout_seconds
    &&& c.connection.retry_attempts == user.connection.retry_attempts
    &&& c.connection.retry_delay_seconds == user.connection.retry_delay_seconds
    &&& c.rdp.auto_launch == user.rdp.auto_launch
    &&& c.rdp.preferred_client@ == user.rdp.preferred_client@
    &&& c.rdp.fullscreen == user.rdp.fullscreen
    &&& c.rdp.resolution@ == user.rdp.resolution@
    &&& c.advanced.debug_mode == user.advanced.debug_mode
    &&& c.advanced.developer_tools == user.advanced.developer_tools
    &&& c.advanced.crash_reporting == user.advanced.crash_reporting
    &&& c.advanced.telemetry == user.advanced.telemetry
    &&& c.boundary.cli_path@ == user.boundary.cli_path@
    &&& c.boundary.auto_detect == user.boundary.auto_detect
}

impl Config {
    /// Lays the user's settings over these: every setting takes the user's
    /// value, and the user's component levels are added to these, replacing
    /// those of the same component.
    pub fn merge_with_user_config(&mut self, user_config: Config)
        ensures
            merged_config(*old(self), user_config, *final(self)),
    {
        let user = user_config;
        let levels = user.logging.component_levels;
        let ghost base = self.logging.component_levels@;
        let mut i: usize = 0;
        while i < levels.len()
            invariant
                i <= levels@.len(),
                self.logging.component_levels@ == with_entries(base, levels@.subrange(0, i as int)),
            decreases levels@.len() - i,
        {
            let (k, v) = &levels[i];
            let e = (k.clone(), v.clone());
            assert(e == levels@[i as int]);
            set_entry(&mut self.logging.component_levels, e);
            assert(levels@.subrange(0, i as int + 1).drop_last() == levels@.subrange(0, i as int));
            i = i + 1;
        }
        assert(levels@.subrange(0, i as int) == levels@);
        self.logging.level = user.logging.level;
        self.logging.enabled = user.logging.enabled;
        self.logging.console_output = user.logging.console_output;
        self.logging.file_output = user.logging.file_output;
        self.logging.log_directory = user.logging.log_directory;
        self.logging.max_file_size_mb = user.logging.max_file_size_mb;
        self.logging.max_files = user.logging.max_files;
        self.logging.log_format = user.logging.log_format;
        self.ui = user.ui;
        self.security = user.security;
        self.connection = user.connection;
        self.rdp = user.rdp;
        self.advanced = user.advanced;
        self.boundary = user.boundary;
    }
}

impl Default for Config {
    /// The built-in settings, used when no settings file can be read.
    fn default() -> (r: Config)
        ensures
            r.logging.level@ == "info"@,
            r.logging.enabled == true,
            r.logging.console_output == true,
            r.logging.file_output == true,
            r.logging.log_directory@ == "auto"@,
            r.logging.max_file_size_mb == 10,
            r.logging.max_files == 5,
            r.logging.log_format@ == "structured"@,
            r.ui.theme@ == "system"@,
            r.ui.startup_behavior@ == "show_window"@,
            r.ui.minimize_to_tray == true,
            r.ui.confirm_exit == false,
            r.ui.remember_window_state == true,
            r.security.auto_logout_minutes == 60,
            r.security.remember_auth == true,
            r.security.ssl_verify == true,
            r.security.timeout_seconds == 30,
            r.connection.auto_connect_single_target == true,
            r.connection.connection_timeout_seconds == 10,
            r.connection.retry_attempts == 3,
            r.connection.retry_delay_seconds == 2,
            r.rdp.auto_launch == true,
            r.rdp.preferred_client@ == "auto"@,
            r.rdp.fullscreen == false,
            r.rdp.resolution@ == "auto"@,
            r.advanced.debug_mode == false,
            r.advanced.developer_tools == false,
            r.advanced.crash_reporting == true,
            r.advanced.telemetry == false,
            r.boundary.cli_path@ == "boundary-cli/boundary_0.19.3_darwin_arm64/boundary"@,
            r.boundary.auto_detect == false,
            r.logging.component_levels@.len() == 0,
    {
        Config {
            logging: LoggingConfig {
                level: owned("info"),
                enabled: true,
                console_output: true,
                file_output: true,
                log_directory: owned("auto"),
                max_file_size_mb: 10,
                max_files: 5,
                log_format: owned("structured"),
                component_levels: Vec::new(),
            },
            ui: UIConfig {
                theme: owned("system"),
                startup_behavior: owned("show_window"),
                minimize_to_tray: true,
                confirm_exit: false,
                remember_window_state: true,
            },
            security: SecurityConfig {
                auto_logout_minutes: 60,
                remember_auth: true,
                ssl_verify: true,
                timeout_seconds: 30,
            },
            connection: ConnectionConfig {
                auto_connect_single_target: true,
                connection_timeout_seconds: 10,
                retry_attempts: 3,
                retry_delay_seconds: 2,
            },
            rdp: RdpConfig {
                auto_launch: true,
                preferred_client: owned("auto"),
                fullscreen: false,
                resolution: owned("auto"),
            },
            advanced: AdvancedConfig {
                debug_mode: false,
                developer_tools: false,
                crash_reporting: true,
                telemetry: false,
            },
            boundary: BoundaryConfig {
                cli_path: owned("boundary-cli/boundary_0.19.3_darwin_arm64/boundary"),
                auto_detect: false,
            },
        }
    }
}

/// The CLI to use for a server: its own when it names one, else the
/// configured one.
pub fn get_boundary_cli_path(server: &Server, config: &Config) -> (r: String)
    ensures
        r@ == match server.boundary_cli_path {
            Some(p) => p@,
            None => config.boundary.cli_path@,
        },
{
    match &server.boundary_cli_path {
        Some(p) => p.clone(),
        None => config.boundary.cli_path.clone(),
    }
}

/// The server with the given id.
pub fn find_server(servers: &Vec<Server>, id: &str) -> (r: Option<usize>)
    ensures
        match r {
            Some(i) => i < servers@.len() && servers@[i as int].id@ == id@ && forall|j: int| 0 <= j < i ==> servers@[j].id@ != id@,
            None => forall|j: int| 0 <= j < servers@.len() ==> servers@[j].id@ != id@,
        },
{
    let mut i: usize = 0;
    while i < servers.len()
        invariant
            i <= servers@.len(),
            forall|j: int| 0 <= j < i ==> servers@[j].id@ != id@,
        decreases servers@.len() - i,
    {
        if str_eq(servers[i].id.as_str(), id) {
            return Some(i);
        }
        i = i + 1;
    }
    None
}

} // verus!
