//! The steps of authorizing and establishing a session, each from the
//! outcome of its one CLI run: a failed run fails the step with the CLI's exit
//! code and standard error, and no partial record is returned.

use vstd::prelude::*;
use crate::cli::owned;
use crate::error::BoundaryError;
use crate::model::{BoundaryAuthMethod, BoundaryScope, BoundaryTarget, BoundarySessionAuthorization, BoundaryConnection, BoundaryCommandResult, ConnectionType, connection_type_name};
use crate::parser::{auth_method_from, scope_from, target_from, list_result, authorization_result, address_pattern, port_pattern, regex_first_group, endpoint_of, parse_auth_methods, parse_scopes, parse_targets, parse_session_authorization, parse_connection_info};

verus! {

/// The error that a failed CLI run gives.
pub open spec fn cli_failure(result: BoundaryCommandResult) -> BoundaryError {
    BoundaryError::Cli { exit_code: result.exit_code, stderr: result.stderr }
}

/// The auth methods that a `auth-methods list` run reports.
pub fn auth_methods_from_output(result: &BoundaryCommandResult) -> (r: Result<Vec<BoundaryAuthMethod>, BoundaryError>)
    ensures
        !result.success ==> r == Err::<Vec<BoundaryAuthMethod>, BoundaryError>(cli_failure(*result)),
        result.success ==> list_result(result.stdout@, r, |item, m: BoundaryAuthMethod| auth_method_from(item, m)),
{
    result.check_success()?;
    parse_auth_methods(result.stdout.as_str())
}

/// The scopes that a `scopes list` run reports.
pub fn scopes_from_output(result: &BoundaryCommandResult) -> (r: Result<Vec<BoundaryScope>, BoundaryError>)
    ensures
        !result.success ==> r == Err::<Vec<BoundaryScope>, BoundaryError>(cli_failure(*result)),
        result.success ==> list_result(result.stdout@, r, |item, s: BoundaryScope| scope_from(item, s)),
{
    result.check_success()?;
    parse_scopes(result.stdout.as_str())
}

/// The targets that a `targets list` run reports.
pub fn targets_from_output(result: &BoundaryCommandResult) -> (r: Result<Vec<BoundaryTarget>, BoundaryError>)
    ensures
        !result.success ==> r == Err::<Vec<BoundaryTarget>, BoundaryError>(cli_failure(*result)),
        result.success ==> list_result(result.stdout@, r, |item, t: BoundaryTarget| target_from(item, t)),
{
    result.check_success()?;
    parse_targets(result.stdout.as_str())
}

/// The session authorization that a `targets authorize-session` run reports.
pub fn authorization_from_output(result: &BoundaryCommandResult) -> (r: Result<BoundarySessionAuthorization, BoundaryError>)
    ensures
        !result.success ==> r == Err::<BoundarySessionAuthorization, BoundaryError>(cli_failure(*result)),
        result.success ==> authorization_result(result.stdout@, r),
{
    result.check_success()?;
    parse_session_authorization(result.stdout.as_str())
}

/// `c` is the connection that a session establishes at the endpoint `e`.
pub open spec fn connection_from(
    c: BoundaryConnection,
    authorization: BoundarySessionAuthorization,
    kind: ConnectionType,
    target_name: Seq<char>,
    created_time: Seq<char>,
    e: (Seq<char>, u16),
) -> bool {
    &&& c.session_id == authorization.session_id
    &&& c.target_id == authorization.target_id
    &&& c.target_name@ == target_name
    &&& c.connection_type@ == connection_type_name(kind)
    &&& c.local_address@ == e.0
    &&& c.local_port == e.1
    &&& c.status@ == "active"@
    &&& c.created_time@ == created_time
    &&& c.expiration_time == authorization.expiration_time
}

/// The connection that a `connect` run establishes for an authorized
/// session, created at `created_time`; an output without a usable port
/// fails with a connection parse error.
pub fn connection_from_output(
    result: &BoundaryCommandResult,
    authorization: &BoundarySessionAuthorization,
    kind: ConnectionType,
    target_name: &str,
    created_time: String,
) -> (r: Result<BoundaryConnection, BoundaryError>)
    ensures
        !result.success ==> r == Err::<BoundaryConnection, BoundaryError>(cli_failure(*result)),
        result.success ==> match (endpoint_of(regex_first_group(address_pattern(), result.stdout@), regex_first_group(port_pattern(), result.stdout@)), r) {
            (Some(e), Ok(c)) => connection_from(c, *authorization, kind, target_name@, created_time@, e),
            (None, Err(err)) => err is ConnectionParse,
            _ => false,
        },
{
    result.check_success()?;
    let (local_address, local_port) = parse_connection_info(result.stdout.as_str())?;
    Ok(BoundaryConnection {
        session_id: authorization.session_id.clone(),
        target_id: authorization.target_id.clone(),
        target_name: owned(target_name),
        connection_type: owned(kind.as_str()),
        local_address,
        local_port,
        status: owned("active"),
        created_time,
        expiration_time: authorization.expiration_time.clone(),
    })
}

/// The targets of the scopes whose listing succeeded, in scope order; a
/// scope whose listing failed adds nothing.
pub open spec fn gathered_targets(results: Seq<Result<Vec<BoundaryTarget>, BoundaryError>>) -> Seq<BoundaryTarget>
    decreases results.len(),
{
    if results.len() == 0 {
        Seq::empty()
    } else {
        gathered_targets(results.drop_last()) + match results.last() {
            Ok(ts) => ts@,
            Err(_) => Seq::empty(),
        }
    }
}

/// Gathers the targets of every scope: failures of single scopes are skipped
/// so that one of them does not blank out the others.
pub fn gather_scope_targets(results: &Vec<Result<Vec<BoundaryTarget>, BoundaryError>>) -> (r: Vec<BoundaryTarget>)
    ensures
        r@ == gathered_targets(results@),
{
    let mut out: Vec<BoundaryTarget> = Vec::new();
    let mut i: usize = 0;
    while i < results.len()
        invariant
            i <= results@.len(),
            out@ == gathered_targets(results@.subrange(0, i as int)),
        decreases results@.len() - i,
    {
        assert(results@.subrange(0, i as int + 1).drop_last() == results@.subrange(0, i as int));
        let ghost before = out@;
        match &results[i] {
            Ok(ts) => {
                let mut j: usize = 0;
                while j < ts.len()
                    invariant
                        j <= ts@.len(),
                        out@ == before + ts@.subrange(0, j as int),
                    decreases ts@.len() - j,
                {
                    out.push(ts[j].clone());
                    assert(ts@.subrange(0, j as int + 1) == ts@.subrange(0, j as int).push(ts@[j as int]));
                    j = j + 1;
                }
                assert(ts@.subrange(0, ts@.len() as int) == ts@);
            },
            Err(_) => {
                assert(out@ == before + Seq::<BoundaryTarget>::empty());
            },
        }
        i = i + 1;
    }
    assert(results@.subrange(0, results@.len() as int) == results@);
    out
}

/// The lower-case form of an ASCII letter; other characters are kept.
pub open spec fn ascii_lower(c: char) -> char {
    if 'A' <= c <= 'Z' {
        (((c as u32) + 32) as u8) as char
    } else {
        c
    }
}

/// Equality of two texts when ASCII letter case is ignored.
pub open spec fn same_ignoring_ascii_case(a: Seq<char>, b: Seq<char>) -> bool {
    a.len() == b.len() && forall|i: int| 0 <= i < a.len() ==> #[trigger] ascii_lower(a[i]) == ascii_lower(b[i])
}

fn lower_char(c: char) -> (r: char)
    ensures
        r == ascii_lower(c),
{
    if 'A' <= c && c <= 'Z' {
        (((c as u32) + 32) as u8) as char
    } else {
        c
    }
}

/// Compares two texts ignoring ASCII letter case.
pub fn eq_ignore_ascii_case(a: &str, b: &str) -> (r: bool)
    ensures
        r == same_ignoring_ascii_case(a@, b@),
{
    let n = a.unicode_len();
    if n != b.unicode_len() {
        return false;
    }
    let mut i: usize = 0;
    while i < n
        invariant
            n == a@.len() == b@.len(),
            i <= n,
            forall|j: int| 0 <= j < i ==> #[trigger] ascii_lower(a@[j]) == ascii_lower(b@[j]),
        decreases n - i,
    {
        if lower_char(a.get_char(i)) != lower_char(b.get_char(i)) {
            return false;
        }
        i = i + 1;
    }
    true
}

/// An auth method is an OIDC one when its kind reads `oidc` in any ASCII case.
pub open spec fn is_oidc(m: BoundaryAuthMethod) -> bool {
    same_ignoring_ascii_case(m.method_type@, "oidc"@)
}

/// The OIDC methods among `methods`, in order; having none is an error, as
/// no interactive sign-in can then be offered.
pub fn oidc_methods(methods: &Vec<BoundaryAuthMethod>) -> (r: Result<Vec<BoundaryAuthMethod>, BoundaryError>)
    ensures
        match r {
            Ok(v) => v@ == methods@.filter(|m: BoundaryAuthMethod| is_oidc(m)) && v@.len() > 0,
            Err(e) => methods@.filter(|m: BoundaryAuthMethod| is_oidc(m)).len() == 0 && e is Parse,
        },
{
    let mut out: Vec<BoundaryAuthMethod> = Vec::new();
    let mut i: usize = 0;
    while i < methods.len()
        invariant
            i <= methods@.len(),
            out@ == methods@.subrange(0, i as int).filter(|m: BoundaryAuthMethod| is_oidc(m)),
        decreases methods@.len() - i,
    {
        proof {
            reveal(Seq::filter);
            assert(methods@.subrange(0, i as int + 1).drop_last() == methods@.subrange(0, i as int));
        }
        if eq_ignore_ascii_case(methods[i].method_type.as_str(), "oidc") {
            out.push(methods[i].clone());
        }
        i = i + 1;
    }
    assert(methods@.subrange(0, methods@.len() as int) == methods@);
    if out.len() == 0 {
        Err(BoundaryError::Parse(owned("no OIDC authentication methods on this server")))
    } else {
        Ok(out)
    }
}

} // verus!
