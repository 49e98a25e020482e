//! The application configuration: the structure of the default and user
//! configuration files, the rules a configuration must meet, and the manager
//! that holds the checked configuration.

use vstd::prelude::*;
use crate::cli::owned;
use crate::text::{lowercase_of, str_eq, to_lower};

verus! {

/// The whole configuration.
#[derive(Clone, Debug)]
pub struct AppConfig {
    pub version: String,
    pub application: ApplicationConfig,
    pub boundary: BoundaryConfig,
    pub servers: Vec<BoundaryServer>,
    pub logging: LoggingConfig,
    pub rdp: RdpConfig,
    pub ui: UiConfig,
    pub security: SecurityConfig,
}

/// The application's own settings.
#[derive(Clone, Debug)]
pub struct ApplicationConfig {
    pub name: String,
    pub window: WindowConfig,
    pub system_tray: SystemTrayConfig,
    pub auto_connect: AutoConnectConfig,
}

/// The main window.
#[derive(Clone, Debug)]
pub struct WindowConfig {
    pub width: u32,
    pub height: u32,
    pub min_width: u32,
    pub min_height: u32,
    pub resizable: bool,
    pub center: bool,
    pub title: String,
}

/// The system tray.
#[derive(Clone, Debug)]
pub struct SystemTrayConfig {
    pub enabled: bool,
    pub minimize_to_tray: bool,
    pub show_notifications: bool,
}

/// Automatic connection.
#[derive(Clone, Debug)]
pub struct AutoConnectConfig {
    pub single_target: bool,
    pub remember_last_server: bool,
}

/// The gateway CLI.
#[derive(Clone, Debug)]
pub struct BoundaryConfig {
    pub cli_path: String,
    pub cli_timeout_seconds: u64,
    pub connection_timeout_seconds: u64,
    pub token_refresh_threshold_minutes: u64,
}

/// A configured gateway server.
#[derive(Clone, Debug)]
pub struct BoundaryServer {
    pub id: String,
    pub name: String,
    pub description: String,
    pub url: String,
    pub enabled: bool,
    pub oidc: OidcConfig,
    pub advanced: AdvancedConfig,
}

/// A server's OIDC sign-in.
#[derive(Clone, Debug)]
pub struct OidcConfig {
    pub auto_discover: bool,
    pub discovery_url: String,
    pub client_id: String,
    pub scopes: Vec<String>,
    pub provider_hints: ProviderHints,
}

/// How to present the identity provider.
#[derive(Clone, Debug)]
pub struct ProviderHints {
    pub name: String,
    /// The provider's kind (`type` in the configuration file).
    pub provider_type: String,
    pub logo_url: Option<String>,
}

/// A server's transport settings.
#[derive(Clone, Debug)]
pub struct AdvancedConfig {
    pub verify_ssl: bool,
    pub custom_ca_path: Option<String>,
    pub proxy_url: Option<String>,
    /// Extra request headers, one entry per header name.
    pub headers: Vec<(String, String)>,
}

/// Logging.
#[derive(Clone, Debug)]
pub struct LoggingConfig {
    pub level: String,
    pub file_path: Option<String>,
    pub console: bool,
    pub log_dir: String,
    pub max_log_size_mb: u64,
    pub file_rotation: bool,
}

/// The log directory used when the configuration names none.
pub fn default_log_dir() -> (r: String)
    ensures
        r@ == "logs"@,
{
    owned("logs")
}

/// The log size limit used when the configuration names none.
pub fn default_max_log_size_mb() -> (r: u64)
    ensures
        r == 10,
{
    10
}

/// Whether logs rotate when the configuration does not say.
pub fn default_file_rotation() -> (r: bool)
    ensures
        r,
{
    true
}

/// Remote-desktop clients.
#[derive(Clone, Debug)]
pub struct RdpConfig {
    pub clients: RdpClients,
    pub connection: RdpConnection,
}

/// The remote-desktop client of each platform.
#[derive(Clone, Debug)]
pub struct RdpClients {
    pub windows: RdpClient,
    pub macos: RdpClient,
    pub linux: Option<RdpClient>,
}

/// How to start a remote-desktop client.
#[derive(Clone, Debug)]
pub struct RdpClient {
    pub executable: String,
    pub args: Vec<String>,
    pub auto_detect: bool,
    pub preferred_apps: Vec<String>,
}

/// Remote-desktop display settings.
#[derive(Clone, Debug)]
pub struct RdpConnection {
    pub fullscreen: bool,
    pub resolution: String,
    pub color_depth: u32,
}

/// The user interface.
#[derive(Clone, Debug)]
pub struct UiConfig {
    pub theme: String,
    pub show_connection_details: bool,
    pub show_server_descriptions: Option<bool>,
    pub compact_mode: bool,
    pub auto_refresh_targets: Option<bool>,
    pub refresh_interval_seconds: Option<u64>,
}

/// Token handling.
#[derive(Clone, Debug)]
pub struct SecurityConfig {
    pub store_tokens_in_keychain: bool,
    pub auto_logout_minutes: u64,
    pub require_confirmation_for_connections: Option<bool>,
    pub verify_certificates: Option<bool>,
    pub allowed_redirect_hosts: Option<Vec<String>>,
}

/// Reads the token storage setting, which the configuration file may give as
/// a boolean or as one of the words `keychain`, `true`, `none`, `false`.
pub fn token_storage_from_word(word: &str) -> (r: Option<bool>)
    ensures
        r == (if word@ == "keychain"@ || word@ == "true"@ {
            Some(true)
        } else if word@ == "none"@ || word@ == "false"@ {
            Some(false)
        } else {
            None
        }),
{
    if str_eq(word, "keychain") || str_eq(word, "true") {
        Some(true)
    } else if str_eq(word, "none") || str_eq(word, "false") {
        Some(false)
    } else {
        None
    }
}

/// Why a configuration was rejected.
#[derive(Clone, Debug)]
pub enum ConfigError {
    /// A server has an empty id.
    EmptyServerId,
    /// The server with this id has an empty URL.
    EmptyServerUrl(String),
    /// The server with this id has a URL that does not parse.
    InvalidUrl(String),
    /// The logging level is not one of trace, debug, info, warn, error.
    InvalidLogLevel(String),
    /// The theme is not one of auto, light, dark.
    InvalidTheme(String),
}

/// Whether the url crate accepts a text as an absolute URL.
pub uninterp spec fn url_parses(s: Seq<char>) -> bool;

/// Relies on url::Url::parse: whether the text parses as an absolute URL;
/// the answer depends on the text alone.
#[verifier::external_body]
fn url_is_valid(s: &str) -> (r: bool)
    ensures
        r == url_parses(s@),
{
    url::Url::parse(s).is_ok()
}

/// A server entry is acceptable: a non-empty id and a non-empty URL that parses.
pub open spec fn server_ok(s: BoundaryServer) -> bool {
    s.id@.len() > 0 && s.url@.len() > 0 && url_parses(s.url@)
}

/// The logging levels accepted, in lower case.
pub open spec fn known_level(l: Seq<char>) -> bool {
    l == "trace"@ || l == "debug"@ || l == "info"@ || l == "warn"@ || l == "error"@
}

/// The themes accepted, in lower case.
pub open spec fn known_theme(t: Seq<char>) -> bool {
    t == "auto"@ || t == "light"@ || t == "dark"@
}

/// A configuration is acceptable: every server entry is, and the logging
/// level and theme are known words in any letter case.
pub open spec fn config_ok(c: AppConfig) -> bool {
    &&& forall|i: int| 0 <= i < c.servers@.len() ==> #[trigger] server_ok(c.servers@[i])
    &&& known_level(lowercase_of(c.logging.level@))
    &&& known_theme(lowercase_of(c.ui.theme@))
}

/// Whether an already lower-cased logging level is accepted.
pub fn is_known_level(l: &str) -> (r: bool)
    ensures
        r == known_level(l@),
{
    str_eq(l, "trace") || str_eq(l, "debug") || str_eq(l, "info") || str_eq(l, "warn") || str_eq(l, "error")
}

/// Whether an already lower-cased theme is accepted.
pub fn is_known_theme(t: &str) -> (r: bool)
    ensures
        r == known_theme(t@),
{
    str_eq(t, "auto") || str_eq(t, "light") || str_eq(t, "dark")
}

/// The position of the first server entry that is not acceptable.
pub open spec fn first_bad_server(servers: Seq<BoundaryServer>) -> Option<int>
    decreases servers.len(),
{
    if servers.len() == 0 {
        None
    } else if !server_ok(servers[0]) {
        Some(0)
    } else {
        match first_bad_server(servers.drop_first()) {
            Some(k) => Some(k + 1),
            None => None,
        }
    }
}

proof fn lemma_first_bad_server(s: Seq<BoundaryServer>, i: int)
    requires
        0 <= i <= s.len(),
        forall|j: int| 0 <= j < i ==> #[trigger] server_ok(s[j]),
    ensures
        i < s.len() && !server_ok(s[i]) ==> first_bad_server(s) == Some(i),
        i == s.len() ==> first_bad_server(s).is_none(),
    decreases i,
{
    if i > 0 {
        assert forall|j: int| 0 <= j < i - 1 implies #[trigger] server_ok(s.drop_first()[j]) by {
            assert(s.drop_first()[j] == s[j + 1]);
        }
        lemma_first_bad_server(s.drop_first(), i - 1);
    }
}

/// The error that an unacceptable server entry gives: an empty id, else an
/// empty URL, else a URL that does not parse, naming the server.
pub open spec fn server_error_is(s: BoundaryServer, e: ConfigError) -> bool {
    if s.id@.len() == 0 {
        e is EmptyServerId
    } else if s.url@.len() == 0 {
        match e {
            ConfigError::EmptyServerUrl(id) => id@ == s.id@,
            _ => false,
        }
    } else {
        match e {
            ConfigError::InvalidUrl(id) => id@ == s.id@,
            _ => false,
        }
    }
}

/// `r` is what checking `c` gives: the error of the first bad server, else
/// an unknown logging level, else an unknown theme, else success.
pub open spec fn validation_result(c: AppConfig, r: Result<(), ConfigError>) -> bool {
    match first_bad_server(c.servers@) {
        Some(i) => match r {
            Err(e) => server_error_is(c.servers@[i], e),
            Ok(_) => false,
        },
        None => if !known_level(lowercase_of(c.logging.level@)) {
            match r {
                Err(ConfigError::InvalidLogLevel(l)) => l@ == c.logging.level@,
                _ => false,
            }
        } else if !known_theme(lowercase_of(c.ui.theme@)) {
            match r {
                Err(ConfigError::InvalidTheme(t)) => t@ == c.ui.theme@,
                _ => false,
            }
        } else {
            r is Ok
        },
    }
}

/// Checks a configuration: servers in order (empty id, then empty URL, then
/// a URL that does not parse), then the logging level, then the theme.
pub fn validate_config(config: &AppConfig) -> (r: Result<(), ConfigError>)
    ensures
        r is Ok <==> config_ok(*config),
        validation_result(*config, r),
{
    let mut i: usize = 0;
    while i < config.servers.len()
        invariant
            i <= config.servers@.len(),
            forall|j: int| 0 <= j < i ==> #[trigger] server_ok(config.servers@[j]),
        decreases config.servers@.len() - i,
    {
        let s = &config.servers[i];
        let bad = s.id.unicode_len() == 0 || s.url.unicode_len() == 0 || !url_is_valid(s.url.as_str());
        if bad {
            proof {
                lemma_first_bad_server(config.servers@, i as int);
            }
            assert(!server_ok(config.servers@[i as int]));
            if s.id.unicode_len() == 0 {
                return Err(ConfigError::EmptyServerId);
            }
            if s.url.unicode_len() == 0 {
                return Err(ConfigError::EmptyServerUrl(s.id.clone()));
            }
            return Err(ConfigError::InvalidUrl(s.id.clone()));
        }
        i = i + 1;
    }
    proof {
        lemma_first_bad_server(config.servers@, i as int);
    }
    let level = to_lower(config.logging.level.as_str());
    if !is_known_level(level.as_str()) {
        return Err(ConfigError::InvalidLogLevel(config.logging.level.clone()));
    }
    let theme = to_lower(config.ui.theme.as_str());
    if !is_known_theme(theme.as_str()) {
        return Err(ConfigError::InvalidTheme(config.ui.theme.clone()));
    }
    Ok(())
}

/// The path of file `name` in directory `dir`.
pub open spec fn path_in(dir: Seq<char>, name: Seq<char>) -> Seq<char> {
    if dir.len() == 0 || dir.last() == '/' {
        dir + name
    } else {
        dir + "/"@ + name
    }
}

/// The path of file `name` in directory `dir`.
pub fn join_path(dir: &str, name: &str) -> (r: String)
    ensures
        r@ == path_in(dir@, name@),
{
    let n = dir.unicode_len();
    let mut out = owned(dir);
    if n > 0 && dir.get_char(n - 1) != '/' {
        out.append("/");
    }
    out.append(name);
    out
}

/// What `Duration::from_secs` gives for a number of seconds.
pub uninterp spec fn seconds_duration(secs: u64) -> std::time::Duration;

/// Relies on std::time::Duration::from_secs: the span of `secs` whole
/// seconds, a function of `secs` alone.
#[verifier::external_body]
fn duration_from_secs(secs: u64) -> (r: std::time::Duration)
    ensures
        r == seconds_duration(secs),
{
    std::time::Duration::from_secs(secs)
}

/// The enabled servers among `s`, in order.
pub open spec fn enabled_servers(s: Seq<BoundaryServer>) -> Seq<BoundaryServer> {
    s.filter(|x: BoundaryServer| x.enabled)
}

/// Holds a checked configuration and where it was read from.
#[derive(Debug)]
pub struct ConfigManager {
    config: AppConfig,
    config_dir: String,
    default_config_path: String,
    user_config_path: String,
}

impl ConfigManager {
    /// The configuration held.
    pub closed spec fn config_view(&self) -> AppConfig {
        self.config
    }

    /// The directory of the configuration files.
    pub closed spec fn dir_view(&self) -> Seq<char> {
        self.config_dir@
    }

    /// The path of the default configuration file.
    pub closed spec fn default_path_view(&self) -> Seq<char> {
        self.default_config_path@
    }

    /// The path of the user configuration file.
    pub closed spec fn user_path_view(&self) -> Seq<char> {
        self.user_config_path@
    }

    /// A manager for the configuration read from `config_dir`, whose files
    /// are `default.json` and `user.json` there; a configuration that breaks
    /// the rules is refused.
    pub fn new(config_dir: String, config: AppConfig) -> (r: Result<ConfigManager, ConfigError>)
        ensures
            r is Ok <==> config_ok(config),
            r matches Ok(m) ==> m.config_view() == config && m.dir_view() == config_dir@
                && m.default_path_view() == path_in(config_dir@, "default.json"@)
                && m.user_path_view() == path_in(config_dir@, "user.json"@),
    {
        let default_config_path = join_path(config_dir.as_str(), "default.json");
        let user_config_path = join_path(config_dir.as_str(), "user.json");
        ConfigManager::new_with_paths(config_dir, default_config_path, user_config_path, config)
    }

    /// A manager for the configuration read from the given files; a
    /// configuration that breaks the rules is refused.
    pub fn new_with_paths(
        config_dir: String,
        default_config_path: String,
        user_config_path: String,
        config: AppConfig,
    ) -> (r: Result<ConfigManager, ConfigError>)
        ensures
            r is Ok <==> config_ok(config),
            r matches Ok(m) ==> m.config_view() == config && m.dir_view() == config_dir@
                && m.default_path_view() == default_config_path@
                && m.user_path_view() == user_config_path@,
    {
        validate_config(&config)?;
        Ok(ConfigManager { config, config_dir, default_config_path, user_config_path })
    }

    /// The configuration.
    pub fn get_config(&self) -> (r: &AppConfig)
        ensures
            *r == self.config_view(),
    {
        &self.config
    }

    /// The servers that are enabled, in order.
    pub fn get_enabled_servers(&self) -> (r: Vec<&BoundaryServer>)
        ensures
            r@.len() == enabled_servers(self.config_view().servers@).len(),
            forall|i: int| 0 <= i < r@.len() ==> *#[trigger] r@[i] == enabled_servers(self.config_view().servers@)[i],
    {
        let servers = &self.config.servers;
        let mut out: Vec<&BoundaryServer> = Vec::new();
        let mut i: usize = 0;
        while i < servers.len()
            invariant
                i <= servers@.len(),
                out@.len() == enabled_servers(servers@.subrange(0, i as int)).len(),
                forall|j: int| 0 <= j < out@.len() ==> *#[trigger] out@[j] == enabled_servers(servers@.subrange(0, i as int))[j],
            decreases servers@.len() - i,
        {
            proof {
                reveal(Seq::filter);
                assert(servers@.subrange(0, i as int + 1).drop_last() == servers@.subrange(0, i as int));
            }
            if servers[i].enabled {
                out.push(&servers[i]);
            }
            i = i + 1;
        }
        assert(servers@.subrange(0, servers@.len() as int) == servers@);
        out
    }

    /// The server with the given id (the first, if several have it).
    pub fn get_server_by_id(&self, id: &str) -> (r: Option<&BoundaryServer>)
        ensures
            match r {
                Some(s) => exists|i: int| 0 <= i < self.config_view().servers@.len()
                    && #[trigger] self.config_view().servers@[i] == *s
                    && s.id@ == id@
                    && forall|j: int| 0 <= j < i ==> (#[trigger] self.config_view().servers@[j]).id@ != id@,
                None => forall|j: int| 0 <= j < self.config_view().servers@.len() ==> (#[trigger] self.config_view().servers@[j]).id@ != id@,
            },
    {
        let servers = &self.config.servers;
        let mut i: usize = 0;
        while i < servers.len()
            invariant
                i <= servers@.len(),
                servers@ == self.config_view().servers@,
                forall|j: int| 0 <= j < i ==> (#[trigger] servers@[j]).id@ != id@,
            decreases servers@.len() - i,
        {
            if str_eq(servers[i].id.as_str(), id) {
                assert(self.config_view().servers@[i as int] == servers@[i as int]);
                return Some(&servers[i]);
            }
            i = i + 1;
        }
        None
    }

    /// Takes a configuration read again from the same files; one that breaks
    /// the rules is refused and the held one kept.
    pub fn reload(&mut self, config: AppConfig) -> (r: Result<(), ConfigError>)
        ensures
            r is Ok <==> config_ok(config),
            r is Ok ==> final(self).config_view() == config,
            r is Err ==> final(self).config_view() == old(self).config_view(),
            final(self).dir_view() == old(self).dir_view(),
            final(self).default_path_view() == old(self).default_path_view(),
            final(self).user_path_view() == old(self).user_path_view(),
    {
        validate_config(&config)?;
        self.config = config;
        Ok(())
    }

    /// The directory of the configuration files.
    pub fn get_config_dir(&self) -> (r: &String)
        ensures
            r@ == self.dir_view(),
    {
        &self.config_dir
    }

    /// The path of the default configuration file.
    pub fn get_default_config_path(&self) -> (r: &String)
        ensures
            r@ == self.default_path_view(),
    {
        &self.default_config_path
    }

    /// The path of the user configuration file.
    pub fn get_user_config_path(&self) -> (r: &String)
        ensures
            r@ == self.user_path_view(),
    {
        &self.user_config_path
    }

    /// The configured CLI.
    pub fn get_boundary_cli_path(&self) -> (r: &str)
        ensures
            r@ == self.config_view().boundary.cli_path@,
    {
        self.config.boundary.cli_path.as_str()
    }

    /// The time limit of one CLI run.
    pub fn get_cli_timeout(&self) -> (r: std::time::Duration)
        ensures
            r == seconds_duration(self.config_view().boundary.cli_timeout_seconds),
    {
        duration_from_secs(self.config.boundary.cli_timeout_seconds)
    }

    /// Closing the window hides it in the tray: the tray is on and set to take it.
    pub fn should_minimize_to_tray(&self) -> (r: bool)
        ensures
            r == (self.config_view().application.system_tray.enabled
                && self.config_view().application.system_tray.minimize_to_tray),
    {
        self.config.application.system_tray.enabled && self.config.application.system_tray.minimize_to_tray
    }

    /// A server with a single target is connected to directly.
    pub fn should_auto_connect_single_target(&self) -> (r: bool)
        ensures
            r == self.config_view().application.auto_connect.single_target,
    {
        self.config.application.auto_connect.single_target
    }

    /// The remote-desktop client settings for `platform`: the macOS ones on
    /// macOS, the Windows ones elsewhere.
    pub fn get_rdp_client_config(&self, platform: &str) -> (r: &RdpClient)
        ensures
            *r == (if platform@ == "macos"@ {
                self.config_view().rdp.clients.macos
            } else {
                self.config_view().rdp.clients.windows
            }),
    {
        if str_eq(platform, "macos") {
            &self.config.rdp.clients.macos
        } else {
            &self.config.rdp.clients.windows
        }
    }
}

fn texts_of(parts: &[&str]) -> (r: Vec<String>)
    ensures
        r@.len() == parts@.len(),
        forall|i: int| 0 <= i < parts@.len() ==> #[trigger] r@[i]@ == parts@[i]@,
{
    let mut out: Vec<String> = Vec::new();
    let mut i: usize = 0;
    while i < parts.len()
        invariant
            i <= parts@.len(),
            out@.len() == i,
            forall|j: int| 0 <= j < i ==> #[trigger] out@[j]@ == parts@[j]@,
        decreases parts@.len() - i,
    {
        out.push(owned(parts[i]));
        i = i + 1;
    }
    out
}

fn sample_server(id: &str, name: &str, description: &str, url: &str, discovery_url: &str, client_id: &str, provider: &str, verify_ssl: bool) -> (r: BoundaryServer)
    ensures
        r.id@ == id@,
        r.name@ == name@,
        r.url@ == url@,
        r.enabled,
        r.advanced.verify_ssl == verify_ssl,
{
    BoundaryServer {
        id: owned(id),
        name: owned(name),
        description: owned(description),
        url: owned(url),
        enabled: true,
        oidc: OidcConfig {
            auto_discover: true,
            discovery_url: owned(discovery_url),
            client_id: owned(client_id),
            scopes: texts_of(&["openid", "profile"]),
            provider_hints: ProviderHints { name: owned(provider), provider_type: owned("oidc"), logo_url: None },
        },
        advanced: AdvancedConfig { verify_ssl, custom_ca_path: None, proxy_url: None, headers: Vec::new() },
    }
}

impl Default for AppConfig {
    /// The built-in configuration, used when no default file can be read.
    fn default() -> (r: AppConfig)
        ensures
            r.version@ == "0.1.0"@,
            r.application.name@ == "Regis"@,
            r.application.window.width == 800,
            r.application.window.height == 600,
            r.application.window.min_width == 600,
            r.application.window.min_height == 400,
            r.application.window.resizable,
            r.application.window.center,
            r.application.window.title@ == "Regis - Boundary Client"@,
            r.application.system_tray.enabled,
            r.application.system_tray.minimize_to_tray,
            r.application.system_tray.show_notifications,
            r.application.auto_connect.single_target,
            r.application.auto_connect.remember_last_server,
            r.boundary.cli_path@ == "boundary"@,
            r.boundary.cli_timeout_seconds == 30,
            r.boundary.connection_timeout_seconds == 60,
            r.boundary.token_refresh_threshold_minutes == 5,
            r.servers@.len() == 2,
            r.servers@[0].id@ == "demo-boundary"@,
            r.servers@[0].url@ == "https://demo.boundary.io"@,
            r.servers@[1].id@ == "local-boundary"@,
            r.servers@[1].url@ == "http://localhost:9200"@,
            r.servers@[0].enabled && r.servers@[1].enabled,
            r.servers@[0].advanced.verify_ssl && !r.servers@[1].advanced.verify_ssl,
            r.logging.level@ == "debug"@,
            r.logging.file_path.is_none(),
            r.logging.console,
            r.logging.log_dir@ == "logs"@,
            r.logging.max_log_size_mb == 10,
            r.logging.file_rotation,
            r.rdp.clients.windows.executable@ == "mstsc"@,
            r.rdp.clients.macos.executable@ == "open"@,
            r.rdp.clients.linux.is_some() && r.rdp.clients.linux.unwrap().executable@ == "rdesktop"@,
            !r.rdp.connection.fullscreen,
            r.rdp.connection.resolution@ == "1920x1080"@,
            r.rdp.connection.color_depth == 32,
            r.ui.theme@ == "auto"@,
            r.ui.show_connection_details,
            r.ui.show_server_descriptions == Some(true),
            !r.ui.compact_mode,
            r.ui.auto_refresh_targets == Some(true),
            r.ui.refresh_interval_seconds == Some(30u64),
            r.security.store_tokens_in_keychain,
            r.security.auto_logout_minutes == 480,
            r.security.require_confirmation_for_connections == Some(false),
            r.security.verify_certificates == Some(true),
            r.security.allowed_redirect_hosts.is_some() && r.security.allowed_redirect_hosts.unwrap()@.len() == 0,
    {
        let mut servers: Vec<BoundaryServer> = Vec::new();
        servers.push(sample_server(
            "demo-boundary",
            "Demo Boundary Server",
            "Sample Boundary server for testing",
            "https://demo.boundary.io",
            "https://demo.boundary.io/.well-known/openid_configuration",
            "demo-client",
            "Demo Provider",
            true,
        ));
        servers.push(sample_server(
            "local-boundary",
            "Local Development",
            "Local Boundary server for development",
            "http://localhost:9200",
            "http://localhost:9200/.well-known/openid_configuration",
            "local-client",
            "Local Auth",
            false,
        ));
        AppConfig {
            version: owned("0.1.0"),
            application: ApplicationConfig {
                name: owned("Regis"),
                window: WindowConfig {
                    width: 800,
                    height: 600,
                    min_width: 600,
                    min_height: 400,
                    resizable: true,
                    center: true,
                    title: owned("Regis - Boundary Client"),
                },
                system_tray: SystemTrayConfig { enabled: true, minimize_to_tray: true, show_notifications: true },
                auto_connect: AutoConnectConfig { single_target: true, remember_last_server: true },
            },
            boundary: BoundaryConfig {
                cli_path: owned("boundary"),
                cli_timeout_seconds: 30,
                connection_timeout_seconds: 60,
                token_refresh_threshold_minutes: 5,
            },
            servers,
            logging: LoggingConfig {
                level: owned("debug"),
                file_path: None,
                console: true,
                log_dir: owned("logs"),
                max_log_size_mb: 10,
                file_rotation: true,
            },
            rdp: RdpConfig {
                clients: RdpClients {
                    windows: RdpClient {
                        executable: owned("mstsc"),
                        args: texts_of(&["/v:{host}:{port}"]),
                        auto_detect: true,
                        preferred_apps: Vec::new(),
                    },
                    macos: RdpClient {
                        executable: owned("open"),
                        args: texts_of(&["rdp://{host}:{port}"]),
                        auto_detect: true,
                        preferred_apps: texts_of(&["Microsoft Remote Desktop", "Royal TSX"]),
                    },
                    linux: Some(RdpClient {
                        executable: owned("rdesktop"),
                        args: texts_of(&["-a", "16", "{host}:{port}"]),
                        auto_detect: true,
                        preferred_apps: texts_of(&["rdesktop", "freerdp", "vinagre"]),
                    }),
                },
                connection: RdpConnection { fullscreen: false, resolution: owned("1920x1080"), color_depth: 32 },
            },
            ui: UiConfig {
                theme: owned("auto"),
                show_connection_details: true,
                show_server_descriptions: Some(true),
                compact_mode: false,
                auto_refresh_targets: Some(true),
                refresh_interval_seconds: Some(30),
            },
            security: SecurityConfig {
                store_tokens_in_keychain: true,
                auto_logout_minutes: 480,
                require_confirmation_for_connections: Some(false),
                verify_certificates: Some(true),
                allowed_redirect_hosts: Some(Vec::new()),
            },
        }
    }
}

} // verus!
