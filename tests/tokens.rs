use regis::error::BoundaryError;
use regis::model::{BoundaryCommandResult, StoredToken};
use regis::refresh::{RefreshAction, RefreshEvent, TokenRefresh};
use regis::tokens::{
    check_retrieved_token, credential_account, credential_service, is_token_expired_or_expiring,
    parse_rfc3339, sign_in_from_output, token_from_cli_config, token_from_reported, token_is_expired,
    Timestamp,
};

fn token(expires_at: Option<&str>, access: &str) -> StoredToken {
    StoredToken {
        access_token: access.to_string(),
        refresh_token: None,
        expires_at: expires_at.map(|s| s.to_string()),
        server_id: "srv".to_string(),
        user_id: "alice".to_string(),
        scope_id: "global".to_string(),
        created_at: "2024-01-01T00:00:00Z".to_string(),
    }
}

fn at(text: &str) -> Timestamp {
    parse_rfc3339(text).unwrap()
}

fn run(success: bool, stdout: &str) -> BoundaryCommandResult {
    BoundaryCommandResult {
        success,
        exit_code: if success { 0 } else { 1 },
        stdout: stdout.to_string(),
        stderr: String::new(),
        command: "boundary".to_string(),
    }
}

#[test]
fn account_key_is_user_at_server() {
    assert_eq!(credential_account("prod", "alice"), "5:alice@prod");
    assert_eq!(credential_account("c", "a@b"), "3:a@b@c");
    assert_eq!(credential_account("b@c", "a"), "1:a@b@c");
    assert_ne!(credential_account("c", "a@b"), credential_account("b@c", "a"));
    assert_eq!(credential_service(), "regis-boundary-client");
}

#[test]
fn rfc3339_instants() {
    let t = at("1970-01-01T00:01:00Z");
    assert_eq!(t.seconds, 60);
    assert_eq!(t.nanos, 0);
    let z = at("2024-05-01T12:00:00+02:00");
    assert_eq!(z.seconds, at("2024-05-01T10:00:00Z").seconds);
    assert!(parse_rfc3339("yesterday").is_none());
}

#[test]
fn expired_token_is_rejected_on_read() {
    let now = at("2024-06-01T12:00:00Z");
    let old = token(Some("2024-06-01T11:59:59Z"), "a");
    assert!(token_is_expired(&old, now));
    assert!(matches!(check_retrieved_token(old, now), Err(BoundaryError::Expired)));
    let fresh = token(Some("2024-06-01T12:00:01Z"), "b");
    assert_eq!(check_retrieved_token(fresh, now).unwrap().access_token, "b");
    let forever = token(None, "c");
    assert!(check_retrieved_token(forever, now).is_ok());
}

#[test]
fn expiring_within_threshold() {
    let now = at("2024-06-01T12:00:00Z");
    let soon = token(Some("2024-06-01T12:01:00Z"), "a");
    assert_eq!(is_token_expired_or_expiring(&soon, 5, now).unwrap(), true);
    assert_eq!(is_token_expired_or_expiring(&soon, 0, now).unwrap(), false);
    let later = token(Some("2024-06-01T12:10:00Z"), "a");
    assert_eq!(is_token_expired_or_expiring(&later, 5, now).unwrap(), false);
    let edge = token(Some("2024-06-01T12:05:00Z"), "a");
    assert_eq!(is_token_expired_or_expiring(&edge, 5, now).unwrap(), true);
    assert_eq!(is_token_expired_or_expiring(&token(None, "a"), 5, now).unwrap(), false);
    assert!(matches!(
        is_token_expired_or_expiring(&token(Some("soon"), "a"), 5, now),
        Err(BoundaryError::Parse(_))
    ));
}

#[test]
fn absent_token_ends_without_cli() {
    let (mut check, first) = TokenRefresh::start("srv".to_string(), "alice".to_string(), 5, at("2024-06-01T12:00:00Z"));
    assert!(matches!(first, RefreshAction::Load));
    let next = check.step(RefreshEvent::Loaded(None));
    assert!(matches!(next, RefreshAction::Done(Ok(None))));
}

#[test]
fn expiring_token_is_refreshed_once_and_stored() {
    let now = at("2024-06-01T12:00:00Z");
    let (mut check, _) = TokenRefresh::start("srv".to_string(), "alice".to_string(), 5, now);
    let mut reauth_requests = 0;
    let mut action = check.step(RefreshEvent::Loaded(Some(token(Some("2024-06-01T12:01:00Z"), "old"))));
    let mut stored: Option<StoredToken> = None;
    let outcome = loop {
        action = match action {
            RefreshAction::Reauthenticate => {
                reauth_requests += 1;
                let mut reported = token(Some("2024-06-01T13:00:00Z"), "new");
                reported.user_id = "someone-else".to_string();
                reported.server_id = "other".to_string();
                check.step(RefreshEvent::Reauthenticated(Ok(reported)))
            }
            RefreshAction::Store(t) => {
                stored = Some(t);
                check.step(RefreshEvent::Stored(Ok(())))
            }
            RefreshAction::Done(r) => break r,
            _ => panic!("unexpected action"),
        };
    };
    assert_eq!(reauth_requests, 1);
    assert_eq!(outcome.unwrap().unwrap().access_token, "new");
    let stored = stored.unwrap();
    assert_eq!(stored.user_id, "alice");
    assert_eq!(stored.server_id, "srv");
    assert_eq!(credential_account(&stored.server_id, &stored.user_id), credential_account("srv", "alice"));
    let got = check_retrieved_token(stored, now).unwrap();
    assert_eq!(got.access_token, "new");
}

#[test]
fn valid_token_is_validated_then_kept() {
    let now = at("2024-06-01T12:00:00Z");
    let (mut check, _) = TokenRefresh::start("srv".to_string(), "alice".to_string(), 5, now);
    let a = check.step(RefreshEvent::Loaded(Some(token(Some("2024-06-01T14:00:00Z"), "keep"))));
    assert!(matches!(a, RefreshAction::Validate(_)));
    match check.step(RefreshEvent::Validated(true)) {
        RefreshAction::Done(Ok(Some(t))) => assert_eq!(t.access_token, "keep"),
        _ => panic!("expected the same token"),
    }
}

#[test]
fn failed_validation_then_failed_sign_in_is_refresh_failed() {
    let now = at("2024-06-01T12:00:00Z");
    let (mut check, _) = TokenRefresh::start("srv".to_string(), "alice".to_string(), 5, now);
    check.step(RefreshEvent::Loaded(Some(token(Some("2024-06-01T14:00:00Z"), "keep"))));
    assert!(matches!(check.step(RefreshEvent::Validated(false)), RefreshAction::Reauthenticate));
    match check.step(RefreshEvent::Reauthenticated(Err("browser closed".to_string()))) {
        RefreshAction::Done(Err(BoundaryError::RefreshFailed(m))) => assert_eq!(m, "browser closed"),
        _ => panic!("expected a refresh failure"),
    }
}

#[test]
fn sign_in_output_with_and_without_token() {
    let with = sign_in_from_output(&run(true, r#"{"token":"at_1","user_id":"u_1","expiration_time":"2030-01-01T00:00:00Z"}"#)).unwrap();
    let t = token_from_reported(with, "srv", "created".to_string()).unwrap();
    assert_eq!(t.access_token, "at_1");
    assert_eq!(t.user_id, "u_1");
    assert_eq!(t.scope_id, "global");
    assert_eq!(t.server_id, "srv");
    assert_eq!(t.expires_at.as_deref(), Some("2030-01-01T00:00:00Z"));
    let without = sign_in_from_output(&run(true, r#"{"user_id":"u_2"}"#)).unwrap();
    assert!(without.access_token.is_none());
    assert!(regis::tokens::needs_cli_token(&without));
    let t = token_from_cli_config(&run(true, "  at_from_cli \n"), without, "srv", "created".to_string()).unwrap();
    assert_eq!(t.access_token, "at_from_cli");
    assert_eq!(t.user_id, "u_2");
    let again = sign_in_from_output(&run(true, "{}")).unwrap();
    assert!(matches!(
        token_from_cli_config(&run(false, ""), again, "srv", "c".to_string()),
        Err(BoundaryError::RefreshFailed(_))
    ));
    assert!(matches!(sign_in_from_output(&run(false, "")), Err(BoundaryError::Cli { .. })));
}

#[test]
fn metadata_leaves_out_secrets_and_instants_order() {
    let t = token(Some("2030-01-01T00:00:00Z"), "secret");
    let m = regis::tokens::metadata_of(&t);
    assert_eq!(m.server_id, "srv");
    assert_eq!(m.user_id, "alice");
    assert_eq!(m.expires_at.as_deref(), Some("2030-01-01T00:00:00Z"));
    let a = at("2024-01-01T00:00:00.25Z");
    let b = at("2024-01-01T00:00:00Z");
    assert!(regis::tokens::is_later(a, b));
    assert!(!regis::tokens::is_later(b, a));
    assert_eq!(regis::tokens::total_nanos(b) + 250_000_000, regis::tokens::total_nanos(a));
}
