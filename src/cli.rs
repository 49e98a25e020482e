//! Invocations of the gateway CLI: the argument lists of each operation, the
//! command line shown in diagnostics, and the reading of an exit status.

use vstd::prelude::*;
use crate::error::BoundaryError;
use crate::model::{BoundaryCommandResult, ConnectionType, connection_type_name};

verus! {

/// The texts of a list of strings.
pub open spec fn texts(v: Seq<String>) -> Seq<Seq<char>> {
    v.map_values(|s: String| s@)
}

/// An owned copy of a text.
pub fn owned(s: &str) -> (r: String)
    ensures
        r@ == s@,
{
    String::from_str(s)
}

/// One run of the CLI: what to execute, with which arguments, against which
/// server, with which environment overrides and time limit.
#[derive(Clone, Debug)]
pub struct CliInvocation {
    pub cli_path: String,
    pub args: Vec<String>,
    pub server_addr: Option<String>,
    pub env: Vec<(String, String)>,
    pub timeout_seconds: u64,
}

/// The time limit given to each run of the CLI.
pub const DEFAULT_CLI_TIMEOUT_SECONDS: u64 = 30;

/// The environment variable through which the CLI receives a token.
pub open spec fn token_variable() -> Seq<char> {
    "BOUNDARY_TOKEN"@
}

/// The arguments actually passed: the operation's own, then `-addr <server>`
/// when a server is given.
pub open spec fn full_args_of(args: Seq<Seq<char>>, server: Option<Seq<char>>) -> Seq<Seq<char>> {
    match server {
        Some(s) => args + seq!["-addr"@, s],
        None => args,
    }
}

/// Texts joined with single spaces.
pub open spec fn joined(parts: Seq<Seq<char>>) -> Seq<char>
    decreases parts.len(),
{
    if parts.len() == 0 {
        Seq::empty()
    } else if parts.len() == 1 {
        parts[0]
    } else {
        joined(parts.drop_last()) + " "@ + parts.last()
    }
}

fn text_list(parts: &[&str]) -> (r: Vec<String>)
    ensures
        r@.len() == parts@.len(),
        forall|i: int| 0 <= i < parts@.len() ==> #[trigger] r@[i]@ == parts@[i]@,
{
    let mut out: Vec<String> = Vec::new();
    let mut i: usize = 0;
    while i < parts.len()
        invariant
            i <= parts@.len(),
            out@.len() == i,
            forall|j: int| 0 <= j < i ==> #[trigger] out@[j]@ == parts@[j]@,
        decreases parts@.len() - i,
    {
        out.push(owned(parts[i]));
        i = i + 1;
    }
    out
}

impl CliInvocation {
    fn with_args(cli_path: &str, parts: &[&str], server_addr: Option<&str>) -> (r: CliInvocation)
        ensures
            r.cli_path@ == cli_path@,
            texts(r.args@) == parts@.map_values(|p: &str| p@),
            r.server_addr.is_some() == server_addr.is_some(),
            server_addr.is_some() ==> r.server_addr.unwrap()@ == server_addr.unwrap()@,
            r.env@.len() == 0,
            r.timeout_seconds == DEFAULT_CLI_TIMEOUT_SECONDS,
    {
        let args = text_list(parts);
        assert(texts(args@) =~= parts@.map_values(|p: &str| p@));
        CliInvocation {
            cli_path: owned(cli_path),
            args,
            server_addr: match server_addr {
                Some(s) => Some(owned(s)),
                None => None,
            },
            env: Vec::new(),
            timeout_seconds: DEFAULT_CLI_TIMEOUT_SECONDS,
        }
    }

    /// The server address as a text, if any.
    pub open spec fn server_text(&self) -> Option<Seq<char>> {
        match self.server_addr {
            Some(s) => Some(s@),
            None => None,
        }
    }

    /// `version`: checks that the CLI runs.
    pub fn version(cli_path: &str) -> (r: CliInvocation)
        ensures
            r.cli_path@ == cli_path@,
            r.timeout_seconds == DEFAULT_CLI_TIMEOUT_SECONDS,
            texts(r.args@) == seq!["version"@],
            r.server_addr.is_none(),
            r.env@.len() == 0,
    {
        let r = CliInvocation::with_args(cli_path, &["version"], None);
        assert(texts(r.args@) =~= seq!["version"@]);
        r
    }

    /// `auth-methods list -format json` against a server.
    pub fn list_auth_methods(cli_path: &str, server_addr: &str) -> (r: CliInvocation)
        ensures
            r.cli_path@ == cli_path@,
            r.timeout_seconds == DEFAULT_CLI_TIMEOUT_SECONDS,
            texts(r.args@) == seq!["auth-methods"@, "list"@, "-format"@, "json"@],
            r.server_text() == Some(server_addr@),
            r.env@.len() == 0,
    {
        let r = CliInvocation::with_args(cli_path, &["auth-methods", "list", "-format", "json"], Some(server_addr));
        assert(texts(r.args@) =~= seq!["auth-methods"@, "list"@, "-format"@, "json"@]);
        r
    }

    /// `scopes list -format json` against a server.
    pub fn list_scopes(cli_path: &str, server_addr: &str) -> (r: CliInvocation)
        ensures
            r.cli_path@ == cli_path@,
            r.timeout_seconds == DEFAULT_CLI_TIMEOUT_SECONDS,
            texts(r.args@) == seq!["scopes"@, "list"@, "-format"@, "json"@],
            r.server_text() == Some(server_addr@),
            r.env@.len() == 0,
    {
        let r = CliInvocation::with_args(cli_path, &["scopes", "list", "-format", "json"], Some(server_addr));
        assert(texts(r.args@) =~= seq!["scopes"@, "list"@, "-format"@, "json"@]);
        r
    }

    /// `targets list -format json`, narrowed to a scope when one is given.
    pub fn list_targets(cli_path: &str, server_addr: &str, scope_id: Option<&str>) -> (r: CliInvocation)
        ensures
            r.cli_path@ == cli_path@,
            r.timeout_seconds == DEFAULT_CLI_TIMEOUT_SECONDS,
            texts(r.args@) == match scope_id {
                Some(s) => seq!["targets"@, "list"@, "-format"@, "json"@, "-scope-id"@, s@],
                None => seq!["targets"@, "list"@, "-format"@, "json"@],
            },
            r.server_text() == Some(server_addr@),
            r.env@.len() == 0,
    {
        let mut r = CliInvocation::with_args(cli_path, &["targets", "list", "-format", "json"], Some(server_addr));
        assert(texts(r.args@) =~= seq!["targets"@, "list"@, "-format"@, "json"@]);
        if let Some(scope) = scope_id {
            r.args.push(owned("-scope-id"));
            r.args.push(owned(scope));
            assert(texts(r.args@) =~= seq!["targets"@, "list"@, "-format"@, "json"@, "-scope-id"@, scope@]);
        }
        r
    }

    /// `targets authorize-session -id <target> -format json`, for a given host
    /// when one is named.
    pub fn authorize_session(cli_path: &str, server_addr: &str, target_id: &str, host_id: Option<&str>) -> (r: CliInvocation)
        ensures
            r.cli_path@ == cli_path@,
            r.timeout_seconds == DEFAULT_CLI_TIMEOUT_SECONDS,
            texts(r.args@) == match host_id {
                Some(h) => seq!["targets"@, "authorize-session"@, "-id"@, target_id@, "-format"@, "json"@, "-host-id"@, h@],
                None => seq!["targets"@, "authorize-session"@, "-id"@, target_id@, "-format"@, "json"@],
            },
            r.server_text() == Some(server_addr@),
            r.env@.len() == 0,
    {
        let mut r = CliInvocation::with_args(cli_path, &["targets", "authorize-session", "-id", target_id, "-format", "json"], Some(server_addr));
        assert(texts(r.args@) =~= seq!["targets"@, "authorize-session"@, "-id"@, target_id@, "-format"@, "json"@]);
        if let Some(host) = host_id {
            r.args.push(owned("-host-id"));
            r.args.push(owned(host));
            assert(texts(r.args@) =~= seq!["targets"@, "authorize-session"@, "-id"@, target_id@, "-format"@, "json"@, "-host-id"@, host@]);
        }
        r
    }

    /// `connect <kind> -authz-token <token>`: opens the local endpoint.
    pub fn connect(cli_path: &str, kind: ConnectionType, authorization_token: &str) -> (r: CliInvocation)
        ensures
            r.cli_path@ == cli_path@,
            r.timeout_seconds == DEFAULT_CLI_TIMEOUT_SECONDS,
            texts(r.args@) == seq!["connect"@, connection_type_name(kind), "-authz-token"@, authorization_token@],
            r.server_addr.is_none(),
            r.env@.len() == 0,
    {
        let r = CliInvocation::with_args(cli_path, &["connect", kind.as_str(), "-authz-token", authorization_token], None);
        assert(texts(r.args@) =~= seq!["connect"@, connection_type_name(kind), "-authz-token"@, authorization_token@]);
        r
    }

    /// `auth-tokens list -format json` run with the token to check, given to
    /// the CLI through its environment: an authenticated no-op.
    pub fn validate_token(cli_path: &str, server_addr: &str, access_token: &str) -> (r: CliInvocation)
        ensures
            r.cli_path@ == cli_path@,
            r.timeout_seconds == DEFAULT_CLI_TIMEOUT_SECONDS,
            texts(r.args@) == seq!["auth-tokens"@, "list"@, "-format"@, "json"@],
            r.server_text() == Some(server_addr@),
            r.env@.len() == 1,
            r.env@[0].0@ == token_variable(),
            r.env@[0].1@ == access_token@,
    {
        let mut r = CliInvocation::with_args(cli_path, &["auth-tokens", "list", "-format", "json"], Some(server_addr));
        assert(texts(r.args@) =~= seq!["auth-tokens"@, "list"@, "-format"@, "json"@]);
        r.env.push((owned("BOUNDARY_TOKEN"), owned(access_token)));
        r
    }

    /// `authenticate oidc -auth-method-id <id> -format json`.
    pub fn authenticate_oidc(cli_path: &str, server_addr: &str, auth_method_id: &str) -> (r: CliInvocation)
        ensures
            r.cli_path@ == cli_path@,
            r.timeout_seconds == DEFAULT_CLI_TIMEOUT_SECONDS,
            texts(r.args@) == seq!["authenticate"@, "oidc"@, "-auth-method-id"@, auth_method_id@, "-format"@, "json"@],
            r.server_text() == Some(server_addr@),
            r.env@.len() == 0,
    {
        let r = CliInvocation::with_args(cli_path, &["authenticate", "oidc", "-auth-method-id", auth_method_id, "-format", "json"], Some(server_addr));
        assert(texts(r.args@) =~= seq!["authenticate"@, "oidc"@, "-auth-method-id"@, auth_method_id@, "-format"@, "json"@]);
        r
    }

    /// `config get-token`: the token that the CLI keeps after signing in.
    pub fn get_token(cli_path: &str) -> (r: CliInvocation)
        ensures
            r.cli_path@ == cli_path@,
            r.timeout_seconds == DEFAULT_CLI_TIMEOUT_SECONDS,
            texts(r.args@) == seq!["config"@, "get-token"@],
            r.server_addr.is_none(),
            r.env@.len() == 0,
    {
        let r = CliInvocation::with_args(cli_path, &["config", "get-token"], None);
        assert(texts(r.args@) =~= seq!["config"@, "get-token"@]);
        r
    }

    /// `sessions read -id <session> -format json`: the remote state of a session.
    pub fn read_session(cli_path: &str, server_addr: &str, session_id: &str) -> (r: CliInvocation)
        ensures
            r.cli_path@ == cli_path@,
            r.timeout_seconds == DEFAULT_CLI_TIMEOUT_SECONDS,
            texts(r.args@) == seq!["sessions"@, "read"@, "-id"@, session_id@, "-format"@, "json"@],
            r.server_text() == Some(server_addr@),
            r.env@.len() == 0,
    {
        let r = CliInvocation::with_args(cli_path, &["sessions", "read", "-id", session_id, "-format", "json"], Some(server_addr));
        assert(texts(r.args@) =~= seq!["sessions"@, "read"@, "-id"@, session_id@, "-format"@, "json"@]);
        r
    }

    /// The arguments handed to the process: the operation's own, then
    /// `-addr <server>` when a server is given.
    pub fn full_args(&self) -> (r: Vec<String>)
        ensures
            texts(r@) == full_args_of(texts(self.args@), self.server_text()),
    {
        let mut out: Vec<String> = Vec::new();
        let mut i: usize = 0;
        while i < self.args.len()
            invariant
                i <= self.args@.len(),
                out@.len() == i,
                forall|j: int| 0 <= j < i ==> #[trigger] out@[j]@ == self.args@[j]@,
            decreases self.args@.len() - i,
        {
            out.push(self.args[i].clone());
            i = i + 1;
        }
        assert(texts(out@) =~= texts(self.args@));
        if let Some(addr) = &self.server_addr {
            out.push(owned("-addr"));
            out.push(addr.clone());
            assert(texts(out@) =~= texts(self.args@) + seq!["-addr"@, addr@]);
        }
        out
    }

    /// The command line shown in diagnostics: the program and its operation
    /// arguments, separated by single spaces.
    pub fn command_line(&self) -> (r: String)
        ensures
            r@ == self.cli_path@ + " "@ + joined(texts(self.args@)),
    {
        let mut line = self.cli_path.clone();
        line.append(" ");
        let mut rest = String::new();
        let mut i: usize = 0;
        while i < self.args.len()
            invariant
                i <= self.args@.len(),
                rest@ == joined(texts(self.args@).subrange(0, i as int)),
            decreases self.args@.len() - i,
        {
            proof {
                let p = texts(self.args@).subrange(0, i as int + 1);
                assert(p.drop_last() =~= texts(self.args@).subrange(0, i as int));
            }
            if i > 0 {
                rest.append(" ");
            }
            rest.append(self.args[i].as_str());
            i = i + 1;
        }
        assert(texts(self.args@).subrange(0, i as int) =~= texts(self.args@));
        line.append(rest.as_str());
        line
    }
}

impl BoundaryCommandResult {
    /// The result of a process that ran: success is a zero exit status; a
    /// process ended without a status (by a signal) reads as exit code -1.
    pub fn from_exit(exit_code: Option<i32>, stdout: String, stderr: String, command: String) -> (r: BoundaryCommandResult)
        ensures
            r.success == (exit_code == Some(0i32)),
            r.exit_code == match exit_code {
                Some(c) => c,
                None => -1i32,
            },
            r.stdout == stdout,
            r.stderr == stderr,
            r.command == command,
    {
        let code = match exit_code {
            Some(c) => c,
            None => -1,
        };
        BoundaryCommandResult { success: code == 0 && exit_code.is_some(), exit_code: code, stdout, stderr, command }
    }

    /// `Ok` for a successful run; a failed one becomes a CLI error carrying
    /// its exit code and standard error.
    pub fn check_success(&self) -> (r: Result<(), BoundaryError>)
        ensures
            self.success ==> r is Ok,
            !self.success ==> r == Err::<(), BoundaryError>(BoundaryError::Cli { exit_code: self.exit_code, stderr: self.stderr }),
    {
        if self.success {
            Ok(())
        } else {
            Err(BoundaryError::Cli { exit_code: self.exit_code, stderr: self.stderr.clone() })
        }
    }
}

} // verus!
