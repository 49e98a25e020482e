//! Bearer tokens: the key under which a token is stored, its expiry, the
//! reading of a fresh sign-in, and the check-and-refresh state machine.

use vstd::prelude::*;
use crate::cli::owned;
use crate::error::BoundaryError;
use crate::json::{JsonValue, json_document, parse_json_text, str_field, text_or_empty};
use crate::model::{BoundaryCommandResult, StoredToken, TokenMetadata};
use crate::parser::opt_text;
use crate::text::{decimal_text, trim_text, trimmed, usize_to_text};

verus! {

/// An instant, as seconds since the Unix epoch and the nanoseconds past that
/// second.
#[derive(Clone, Copy, Debug)]
pub struct Timestamp {
    pub seconds: i64,
    pub nanos: u32,
}

impl Timestamp {
    /// The instant as nanoseconds since the Unix epoch.
    pub open spec fn total_nanos(self) -> int {
        self.seconds as int * 1_000_000_000 + self.nanos as int
    }
}

/// Nanoseconds in one minute.
pub open spec fn minute_nanos() -> int {
    60_000_000_000
}

/// The instant that chrono reads from an RFC 3339 text.
pub uninterp spec fn rfc3339_instant(s: Seq<char>) -> Option<Timestamp>;

/// Relies on chrono::DateTime::parse_from_rfc3339, DateTime::timestamp and
/// DateTime::timestamp_subsec_nanos: the instant that an RFC 3339 text
/// denotes, `None` when the text is not RFC 3339; the result depends on the
/// text alone.
#[verifier::external_body]
pub fn parse_rfc3339(s: &str) -> (r: Option<Timestamp>)
    ensures
        r == rfc3339_instant(s@),
{
    chrono::DateTime::parse_from_rfc3339(s).ok().map(
        |t| Timestamp { seconds: t.timestamp(), nanos: t.timestamp_subsec_nanos() },
    )
}

/// The instant as nanoseconds since the Unix epoch.
pub fn total_nanos(t: Timestamp) -> (r: i128)
    ensures
        r == t.total_nanos(),
{
    (t.seconds as i128) * 1_000_000_000 + (t.nanos as i128)
}

/// `a` is strictly later than `b`.
pub fn is_later(a: Timestamp, b: Timestamp) -> (r: bool)
    ensures
        r == (a.total_nanos() > b.total_nanos()),
{
    total_nanos(a) > total_nanos(b)
}

/// The secure store's service name for this client's tokens.
pub open spec fn credential_service_name() -> Seq<char> {
    "regis-boundary-client"@
}

/// The secure store's service name for this client's tokens.
pub fn credential_service() -> (r: &'static str)
    ensures
        r@ == credential_service_name(),
{
    "regis-boundary-client"
}

/// The account under which the token of `user_id` on `server_id` is kept:
/// the length of the user id in decimal, `:`, the user id, `@`, the server
/// id. The length prefix makes the key tell every identity apart, whatever
/// characters the ids hold.
pub open spec fn account_of(server_id: Seq<char>, user_id: Seq<char>) -> Seq<char> {
    decimal_text(user_id.len()) + ":"@ + user_id + "@"@ + server_id
}

/// The account under which the token of `user_id` on `server_id` is kept.
pub fn credential_account(server_id: &str, user_id: &str) -> (r: String)
    ensures
        r@ == account_of(server_id@, user_id@),
{
    let mut a = usize_to_text(user_id.unicode_len());
    a.append(":");
    a.append(user_id);
    a.append("@");
    a.append(server_id);
    a
}

/// The expiry instant of a token: `None` for no expiry, `Some(None)` for an
/// expiry text that is not RFC 3339.
pub open spec fn expiry_of(token: StoredToken) -> Option<Option<Timestamp>> {
    match token.expires_at {
        Some(s) => Some(rfc3339_instant(s@)),
        None => None,
    }
}

/// A token is expired at `now` when its expiry is readable and `now` is past it.
pub open spec fn expired_at(token: StoredToken, now: Timestamp) -> bool {
    match expiry_of(token) {
        Some(Some(e)) => now.total_nanos() > e.total_nanos(),
        _ => false,
    }
}

/// Whether a token is past its expiry at `now`; an unreadable expiry does not
/// make it expired.
pub fn token_is_expired(token: &StoredToken, now: Timestamp) -> (r: bool)
    ensures
        r == expired_at(*token, now),
{
    match &token.expires_at {
        Some(s) => match parse_rfc3339(s.as_str()) {
            Some(e) => is_later(now, e),
            None => false,
        },
        None => false,
    }
}

/// What the credential store hands out for a stored `token` read at `now`.
pub open spec fn retrieved(token: StoredToken, now: Timestamp) -> Result<StoredToken, BoundaryError> {
    if expired_at(token, now) {
        Err(BoundaryError::Expired)
    } else {
        Ok(token)
    }
}

/// The read-time guard of the credential store: a token read back is handed
/// out only while it has not expired; an expired one counts as absent.
pub fn check_retrieved_token(token: StoredToken, now: Timestamp) -> (r: Result<StoredToken, BoundaryError>)
    ensures
        r == retrieved(token, now),
{
    if token_is_expired(&token, now) {
        Err(BoundaryError::Expired)
    } else {
        Ok(token)
    }
}

/// Whether a token needs refreshing at `now`: `Some(true)` when `now` has
/// reached its expiry less the threshold, `Some(false)` when it has not or
/// the token does not expire, `None` when its expiry is unreadable.
pub open spec fn expiring_at(token: StoredToken, threshold_minutes: u32, now: Timestamp) -> Option<bool> {
    match expiry_of(token) {
        None => Some(false),
        Some(None) => None,
        Some(Some(e)) => Some(now.total_nanos() >= e.total_nanos() - threshold_minutes as int * minute_nanos()),
    }
}

/// Whether `now` has reached `expiry` less `threshold_minutes`.
pub fn expiring_by(expiry: Timestamp, threshold_minutes: u32, now: Timestamp) -> (r: bool)
    ensures
        r == (now.total_nanos() >= expiry.total_nanos() - threshold_minutes as int * minute_nanos()),
{
    let window = (threshold_minutes as i128) * 60_000_000_000;
    total_nanos(now) >= total_nanos(expiry) - window
}

/// Whether `token` expires within `threshold_minutes` of `now` (or already
/// has); an expiry that is not RFC 3339 is a parse error.
pub fn is_token_expired_or_expiring(token: &StoredToken, threshold_minutes: u32, now: Timestamp) -> (r: Result<bool, BoundaryError>)
    ensures
        match (expiring_at(*token, threshold_minutes, now), r) {
            (Some(b), Ok(v)) => v == b,
            (None, Err(e)) => e is Parse,
            _ => false,
        },
{
    match &token.expires_at {
        None => Ok(false),
        Some(s) => match parse_rfc3339(s.as_str()) {
            None => Err(BoundaryError::Parse(owned("token expiry is not RFC 3339"))),
            Some(e) => Ok(expiring_by(e, threshold_minutes, now)),
        },
    }
}

/// What may be shown of a stored token: everything but its secrets.
pub fn metadata_of(token: &StoredToken) -> (r: TokenMetadata)
    ensures
        r.server_id == token.server_id,
        r.user_id == token.user_id,
        r.scope_id == token.scope_id,
        r.created_at == token.created_at,
        r.expires_at == token.expires_at,
{
    TokenMetadata {
        server_id: token.server_id.clone(),
        user_id: token.user_id.clone(),
        scope_id: token.scope_id.clone(),
        created_at: token.created_at.clone(),
        expires_at: token.expires_at.clone(),
    }
}

/// The scope given to a token obtained by signing in again.
pub open spec fn default_scope() -> Seq<char> {
    "global"@
}

/// What a sign-in run reported: the token, when its output held one, and
/// the user and expiry that came with it.
#[derive(Debug)]
pub struct SignIn {
    pub access_token: Option<String>,
    pub user_id: String,
    pub expires_at: Option<String>,
}

/// `t` is the token that a sign-in on `server_id` gives with `access_token`,
/// created at `created_at`.
pub open spec fn token_from_sign_in(
    t: StoredToken,
    sign_in: SignIn,
    access_token: Seq<char>,
    server_id: Seq<char>,
    created_at: Seq<char>,
) -> bool {
    &&& t.access_token@ == access_token
    &&& t.refresh_token.is_none()
    &&& t.expires_at == sign_in.expires_at
    &&& t.server_id@ == server_id
    &&& t.user_id == sign_in.user_id
    &&& t.scope_id@ == default_scope()
    &&& t.created_at@ == created_at
}

/// The token that a sign-in on `server_id` gives with `access_token`,
/// created at `created_at`.
pub fn token_from_access(access_token: String, sign_in: SignIn, server_id: &str, created_at: String) -> (r: StoredToken)
    ensures
        token_from_sign_in(r, sign_in, access_token@, server_id@, created_at@),
{
    StoredToken {
        access_token,
        refresh_token: None,
        expires_at: sign_in.expires_at,
        server_id: owned(server_id),
        user_id: sign_in.user_id,
        scope_id: owned("global"),
        created_at,
    }
}

/// `s` is what a parsed `authenticate oidc` document reports.
pub open spec fn sign_in_from(doc: JsonValue, s: SignIn) -> bool {
    &&& opt_text(s.access_token) == (if text_or_empty(doc, "token"@).len() > 0 {
        Some(text_or_empty(doc, "token"@))
    } else {
        None
    })
    &&& s.user_id@ == text_or_empty(doc, "user_id"@)
    &&& opt_text(s.expires_at) == str_field(doc, "expiration_time"@)
}

/// Reads a parsed `authenticate oidc` document: the `token`, `user_id` and
/// `expiration_time` fields; an empty or missing token reads as none.
pub fn sign_in_from_document(doc: &JsonValue) -> (r: SignIn)
    ensures
        sign_in_from(*doc, r),
{
    let token = doc.get_text_or_empty("token");
    let access_token = if token.unicode_len() > 0 {
        Some(token)
    } else {
        None
    };
    SignIn { access_token, user_id: doc.get_text_or_empty("user_id"), expires_at: doc.get_str("expiration_time") }
}

/// Reads the output of `authenticate oidc`: the `token`, `user_id` and
/// `expiration_time` fields; an empty or missing token reads as none.
pub fn sign_in_from_output(result: &BoundaryCommandResult) -> (r: Result<SignIn, BoundaryError>)
    ensures
        !result.success ==> r == Err::<SignIn, BoundaryError>(BoundaryError::Cli { exit_code: result.exit_code, stderr: result.stderr }),
        result.success ==> match (json_document(result.stdout@), r) {
            (Some(doc), Ok(s)) => sign_in_from(doc, s),
            (None, Err(e)) => e is Parse,
            _ => false,
        },
{
    result.check_success()?;
    match parse_json_text(result.stdout.as_str()) {
        Some(doc) => Ok(sign_in_from_document(&doc)),
        None => Err(BoundaryError::Parse(owned("sign-in output is not valid JSON"))),
    }
}

/// Whether a sign-in left the token to be fetched with `config get-token`:
/// its output held none.
pub fn needs_cli_token(sign_in: &SignIn) -> (r: bool)
    ensures
        r == sign_in.access_token.is_none(),
{
    sign_in.access_token.is_none()
}

/// The token that a sign-in gives when its output held the token.
pub fn token_from_reported(sign_in: SignIn, server_id: &str, created_at: String) -> (r: Option<StoredToken>)
    ensures
        sign_in.access_token.is_none() ==> r.is_none(),
        sign_in.access_token.is_some() ==> r.is_some() && token_from_sign_in(
            r.unwrap(),
            sign_in,
            sign_in.access_token.unwrap()@,
            server_id@,
            created_at@,
        ),
{
    let SignIn { access_token, user_id, expires_at } = sign_in;
    match access_token {
        Some(a) => Some(token_from_access(a, SignIn { access_token: None, user_id, expires_at }, server_id, created_at)),
        None => None,
    }
}

/// The token of a sign-in whose output held none, from the CLI's
/// `config get-token` run: its trimmed output. A failed run means that no
/// token can be had.
pub fn token_from_cli_config(
    result: &BoundaryCommandResult,
    sign_in: SignIn,
    server_id: &str,
    created_at: String,
) -> (r: Result<StoredToken, BoundaryError>)
    ensures
        !result.success ==> r is Err && r->Err_0 is RefreshFailed,
        result.success ==> r is Ok && token_from_sign_in(
            r->Ok_0,
            sign_in,
            trimmed(result.stdout@),
            server_id@,
            created_at@,
        ),
{
    if !result.success {
        return Err(BoundaryError::RefreshFailed(owned("no token could be retrieved after signing in")));
    }
    Ok(token_from_access(trim_text(result.stdout.as_str()), sign_in, server_id, created_at))
}

} // verus!
