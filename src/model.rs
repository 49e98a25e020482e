//! The records that flow between the gateway CLI, the credential store and
//! the connection table.

use vstd::prelude::*;
use crate::text::{str_eq, to_lower};

verus! {

/// What one run of the gateway CLI produced.
#[derive(Clone, Debug)]
pub struct BoundaryCommandResult {
    pub success: bool,
    pub exit_code: i32,
    pub stdout: String,
    pub stderr: String,
    pub command: String,
}

/// An authentication method offered by the gateway.
#[derive(Debug)]
pub struct BoundaryAuthMethod {
    pub id: String,
    pub name: String,
    pub method_type: String,
    pub description: String,
}

impl Clone for BoundaryAuthMethod {
    fn clone(&self) -> (r: Self)
        ensures
            r == *self,
    {
        BoundaryAuthMethod {
            id: self.id.clone(),
            name: self.name.clone(),
            method_type: self.method_type.clone(),
            description: self.description.clone(),
        }
    }
}

/// A namespace of the gateway.
#[derive(Debug)]
pub struct BoundaryScope {
    pub id: String,
    pub name: String,
    pub scope_type: String,
    pub description: String,
}

impl Clone for BoundaryScope {
    fn clone(&self) -> (r: Self)
        ensures
            r == *self,
    {
        BoundaryScope {
            id: self.id.clone(),
            name: self.name.clone(),
            scope_type: self.scope_type.clone(),
            description: self.description.clone(),
        }
    }
}

/// A remote resource reachable through an authorized session.
#[derive(Debug)]
pub struct BoundaryTarget {
    pub id: String,
    pub name: String,
    pub target_type: String,
    pub description: String,
    pub address: Option<String>,
    pub default_port: Option<u16>,
}

impl Clone for BoundaryTarget {
    fn clone(&self) -> (r: Self)
        ensures
            r == *self,
    {
        BoundaryTarget {
            id: self.id.clone(),
            name: self.name.clone(),
            target_type: self.target_type.clone(),
            description: self.description.clone(),
            address: self.address.clone(),
            default_port: self.default_port,
        }
    }
}

/// A short-lived authorization for one session to one target.
#[derive(Clone, Debug)]
pub struct BoundarySessionAuthorization {
    pub authorization_token: String,
    pub session_id: String,
    pub target_id: String,
    pub user_id: String,
    pub host_id: Option<String>,
    pub scope_id: String,
    pub created_time: String,
    pub expiration_time: Option<String>,
    pub connection_limit: i32,
}

/// An established local connection to a target.
#[derive(Debug)]
pub struct BoundaryConnection {
    pub session_id: String,
    pub target_id: String,
    pub target_name: String,
    pub connection_type: String,
    pub local_address: String,
    pub local_port: u16,
    pub status: String,
    pub created_time: String,
    pub expiration_time: Option<String>,
}

impl Clone for BoundaryConnection {
    fn clone(&self) -> (r: Self)
        ensures
            r == *self,
    {
        BoundaryConnection {
            session_id: self.session_id.clone(),
            target_id: self.target_id.clone(),
            target_name: self.target_name.clone(),
            connection_type: self.connection_type.clone(),
            local_address: self.local_address.clone(),
            local_port: self.local_port,
            status: self.status.clone(),
            created_time: self.created_time.clone(),
            expiration_time: self.expiration_time.clone(),
        }
    }
}

/// The kind of connection that the CLI establishes.
#[derive(Clone, Copy, Debug, PartialEq, Eq, Structural)]
pub enum ConnectionType {
    SSH,
    RDP,
    TCP,
    HTTP,
}

/// The CLI's name of a connection kind.
pub open spec fn connection_type_name(t: ConnectionType) -> Seq<char> {
    match t {
        ConnectionType::SSH => "ssh"@,
        ConnectionType::RDP => "rdp"@,
        ConnectionType::TCP => "tcp"@,
        ConnectionType::HTTP => "http"@,
    }
}

/// The connection kind whose CLI name is `s` exactly.
pub open spec fn connection_type_named(s: Seq<char>) -> Option<ConnectionType> {
    if s == "ssh"@ {
        Some(ConnectionType::SSH)
    } else if s == "rdp"@ {
        Some(ConnectionType::RDP)
    } else if s == "tcp"@ {
        Some(ConnectionType::TCP)
    } else if s == "http"@ {
        Some(ConnectionType::HTTP)
    } else {
        None
    }
}

impl ConnectionType {
    /// The CLI's name of this connection kind.
    pub fn as_str(&self) -> (r: &'static str)
        ensures
            r@ == connection_type_name(*self),
    {
        match self {
            ConnectionType::SSH => "ssh",
            ConnectionType::RDP => "rdp",
            ConnectionType::TCP => "tcp",
            ConnectionType::HTTP => "http",
        }
    }

    /// The connection kind named by an already lower-cased text.
    pub fn from_lowercase(s: &str) -> (r: Option<ConnectionType>)
        ensures
            r == connection_type_named(s@),
    {
        if str_eq(s, "ssh") {
            Some(ConnectionType::SSH)
        } else if str_eq(s, "rdp") {
            Some(ConnectionType::RDP)
        } else if str_eq(s, "tcp") {
            Some(ConnectionType::TCP)
        } else if str_eq(s, "http") {
            Some(ConnectionType::HTTP)
        } else {
            None
        }
    }

    /// The connection kind named by `s`, in any letter case.
    pub fn parse(s: &str) -> (r: Option<ConnectionType>)
        ensures
            r == connection_type_named(crate::text::lowercase_of(s@)),
    {
        let lower = to_lower(s);
        ConnectionType::from_lowercase(lower.as_str())
    }
}

/// A remote-desktop client found on this machine.
#[derive(Debug)]
pub struct RdpClientInfo {
    pub name: String,
    pub executable_path: String,
    pub client_type: String,
    pub platform: String,
    pub version: Option<String>,
    pub supports_fullscreen: bool,
    pub supports_resolution: bool,
    pub supports_credentials: bool,
}

impl Clone for RdpClientInfo {
    fn clone(&self) -> (r: Self)
        ensures
            r == *self,
    {
        RdpClientInfo {
            name: self.name.clone(),
            executable_path: self.executable_path.clone(),
            client_type: self.client_type.clone(),
            platform: self.platform.clone(),
            version: self.version.clone(),
            supports_fullscreen: self.supports_fullscreen,
            supports_resolution: self.supports_resolution,
            supports_credentials: self.supports_credentials,
        }
    }
}

/// The remote-desktop clients found, and the one to use by default.
#[derive(Clone, Debug)]
pub struct DetectedRdpClients {
    pub clients: Vec<RdpClientInfo>,
    pub default_client: Option<String>,
    pub platform: String,
}

/// A bearer token as kept in the secure store.
#[derive(Debug)]
pub struct StoredToken {
    pub access_token: String,
    pub refresh_token: Option<String>,
    /// Expiry as RFC 3339 text; `None` for a token that does not expire.
    pub expires_at: Option<String>,
    pub server_id: String,
    pub user_id: String,
    pub scope_id: String,
    pub created_at: String,
}

impl Clone for StoredToken {
    fn clone(&self) -> (r: Self)
        ensures
            r == *self,
    {
        StoredToken {
            access_token: self.access_token.clone(),
            refresh_token: self.refresh_token.clone(),
            expires_at: self.expires_at.clone(),
            server_id: self.server_id.clone(),
            user_id: self.user_id.clone(),
            scope_id: self.scope_id.clone(),
            created_at: self.created_at.clone(),
        }
    }
}

/// A request to start an interactive sign-in.
#[derive(Clone, Debug)]
pub struct OIDCAuthRequest {
    pub server_id: String,
    pub auth_method_id: String,
    pub scope_id: Option<String>,
}

/// Progress of an interactive sign-in.
#[derive(Clone, Debug)]
pub struct OIDCAuthProgress {
    pub status: String,
    pub message: String,
    pub auth_url: Option<String>,
    pub progress_percent: u8,
}

/// Outcome of an interactive sign-in.
#[derive(Clone, Debug)]
pub struct OIDCAuthResult {
    pub success: bool,
    pub token: Option<StoredToken>,
    pub error: Option<String>,
    pub scopes: Option<Vec<BoundaryScope>>,
}

/// What may be shown of a stored token: everything but the secrets.
#[derive(Clone, Debug)]
pub struct TokenMetadata {
    pub server_id: String,
    pub user_id: String,
    pub scope_id: String,
    pub created_at: String,
    pub expires_at: Option<String>,
}

/// The last health check of a session.
#[derive(Debug)]
pub struct SessionHealth {
    pub session_id: String,
    /// `healthy`, `unhealthy`, `error` or `session_status_<remote status>`.
    pub status: String,
    pub last_check: String,
    pub response_time_ms: Option<u64>,
    pub error_count: u32,
    pub consecutive_failures: u32,
}

impl Clone for SessionHealth {
    fn clone(&self) -> (r: Self)
        ensures
            r == *self,
    {
        SessionHealth {
            session_id: self.session_id.clone(),
            status: self.status.clone(),
            last_check: self.last_check.clone(),
            response_time_ms: self.response_time_ms,
            error_count: self.error_count,
            consecutive_failures: self.consecutive_failures,
        }
    }
}

/// Counts over the connection table and its health entries.
#[derive(Clone, Debug)]
pub struct SessionMonitoringStats {
    pub total_sessions: usize,
    pub active_sessions: usize,
    pub failed_sessions: usize,
    pub monitoring_enabled: bool,
    pub last_check: String,
}

} // verus!
