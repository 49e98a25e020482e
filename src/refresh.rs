//! The check-and-refresh decision for one stored credential, as a state
//! machine. The caller performs each action (a store read, a validation run
//! of the CLI, a sign-in, a store write) and hands back what came of it:
//!
//! 1. no stored token: done, with no token; the caller must sign in
//!    interactively;
//! 2. a token that is not near its expiry: validate it remotely; if that
//!    succeeds, done with that token, else go to 3;
//! 3. a token near its expiry, or one that failed validation: sign in again,
//!    store the new token, done with it. A failed sign-in fails the check and
//!    leaves the stored token as it was.

use vstd::prelude::*;
use crate::cli::owned;
use crate::error::BoundaryError;
use crate::model::StoredToken;
use crate::tokens::{Timestamp, expiring_at, is_token_expired_or_expiring};

verus! {

/// Where a check stands.
#[derive(Debug)]
pub enum RefreshPhase {
    /// Waiting for the stored token.
    Loading,
    /// Waiting for the remote validation of this token.
    Validating(StoredToken),
    /// Waiting for a fresh sign-in.
    Reauthenticating,
    /// Waiting for this new token to be stored.
    Storing(StoredToken),
    /// Done.
    Finished,
}

/// What the caller is to do next.
#[derive(Debug)]
pub enum RefreshAction {
    /// Read the stored token of the identity.
    Load,
    /// Run the CLI's authenticated no-op with this token.
    Validate(StoredToken),
    /// Sign in again without interaction.
    Reauthenticate,
    /// Store this token for the identity.
    Store(StoredToken),
    /// The check is over: the usable token, or none when there is no stored
    /// token, or the failure.
    Done(Result<Option<StoredToken>, BoundaryError>),
}

/// What came of the last action.
#[derive(Debug)]
pub enum RefreshEvent {
    /// The stored token; `None` when there is none (or it has expired).
    Loaded(Option<StoredToken>),
    /// Whether the remote validation succeeded.
    Validated(bool),
    /// The new token, or why signing in failed.
    Reauthenticated(Result<StoredToken, String>),
    /// Whether storing the new token succeeded.
    Stored(Result<(), BoundaryError>),
}

/// A check of the credential of one identity, at one instant, with one
/// refresh threshold.
#[derive(Debug)]
pub struct TokenRefresh {
    /// The server of the identity checked.
    pub server_id: String,
    /// The user of the identity checked.
    pub user_id: String,
    pub threshold_minutes: u32,
    pub now: Timestamp,
    pub phase: RefreshPhase,
}

/// Whether `event` answers the action that `phase` waits on.
pub open spec fn answers(phase: RefreshPhase, event: RefreshEvent) -> bool {
    match (phase, event) {
        (RefreshPhase::Loading, RefreshEvent::Loaded(_)) => true,
        (RefreshPhase::Validating(_), RefreshEvent::Validated(_)) => true,
        (RefreshPhase::Reauthenticating, RefreshEvent::Reauthenticated(_)) => true,
        (RefreshPhase::Storing(_), RefreshEvent::Stored(_)) => true,
        _ => false,
    }
}

/// A fresh token filed under the identity that was checked, whatever ids
/// the sign-in reported.
pub open spec fn for_identity(t: StoredToken, server_id: String, user_id: String) -> StoredToken {
    StoredToken { server_id, user_id, ..t }
}

/// `next` and `action` are the phase that follows `phase` on `event` and the
/// action that it asks for, in a check of the identity (`server_id`,
/// `user_id`).
pub open spec fn next_step(
    server_id: String,
    user_id: String,
    threshold_minutes: u32,
    now: Timestamp,
    phase: RefreshPhase,
    event: RefreshEvent,
    next: RefreshPhase,
    action: RefreshAction,
) -> bool {
    match (phase, event) {
        (RefreshPhase::Loading, RefreshEvent::Loaded(None)) => next is Finished && action == RefreshAction::Done(Ok(None)),
        (RefreshPhase::Loading, RefreshEvent::Loaded(Some(t))) => match expiring_at(t, threshold_minutes, now) {
            Some(false) => next == RefreshPhase::Validating(t) && action == RefreshAction::Validate(t),
            Some(true) => next is Reauthenticating && action is Reauthenticate,
            None => next is Finished && match action {
                RefreshAction::Done(Err(e)) => e is Parse,
                _ => false,
            },
        },
        (RefreshPhase::Validating(t), RefreshEvent::Validated(true)) => next is Finished && action == RefreshAction::Done(Ok(Some(t))),
        (RefreshPhase::Validating(_), RefreshEvent::Validated(false)) => next is Reauthenticating && action is Reauthenticate,
        (RefreshPhase::Reauthenticating, RefreshEvent::Reauthenticated(Ok(n))) => {
            let k = for_identity(n, server_id, user_id);
            next == RefreshPhase::Storing(k) && action == RefreshAction::Store(k)
        },
        (RefreshPhase::Reauthenticating, RefreshEvent::Reauthenticated(Err(m))) => next is Finished && action == RefreshAction::Done(Err(BoundaryError::RefreshFailed(m))),
        (RefreshPhase::Storing(n), RefreshEvent::Stored(Ok(()))) => next is Finished && action == RefreshAction::Done(Ok(Some(n))),
        (RefreshPhase::Storing(_), RefreshEvent::Stored(Err(e))) => next is Finished && action == RefreshAction::Done(Err(e)),
        _ => false,
    }
}

impl TokenRefresh {
    /// A check of the identity (`server_id`, `user_id`) at `now` with the
    /// given threshold; its first action is to read the stored token.
    pub fn start(server_id: String, user_id: String, threshold_minutes: u32, now: Timestamp) -> (r: (TokenRefresh, RefreshAction))
        ensures
            r.0.server_id == server_id,
            r.0.user_id == user_id,
            r.0.threshold_minutes == threshold_minutes,
            r.0.now == now,
            r.0.phase is Loading,
            r.1 is Load,
    {
        (TokenRefresh { server_id, user_id, threshold_minutes, now, phase: RefreshPhase::Loading }, RefreshAction::Load)
    }

    /// Whether `event` answers the action that the check waits on.
    pub fn accepts(&self, event: &RefreshEvent) -> (r: bool)
        ensures
            r == answers(self.phase, *event),
    {
        match (&self.phase, event) {
            (RefreshPhase::Loading, RefreshEvent::Loaded(_)) => true,
            (RefreshPhase::Validating(_), RefreshEvent::Validated(_)) => true,
            (RefreshPhase::Reauthenticating, RefreshEvent::Reauthenticated(_)) => true,
            (RefreshPhase::Storing(_), RefreshEvent::Stored(_)) => true,
            _ => false,
        }
    }

    /// Moves the check on by what came of its last action, and says what to
    /// do next.
    pub fn step(&mut self, event: RefreshEvent) -> (action: RefreshAction)
        requires
            answers(old(self).phase, event),
        ensures
            final(self).server_id == old(self).server_id,
            final(self).user_id == old(self).user_id,
            final(self).threshold_minutes == old(self).threshold_minutes,
            final(self).now == old(self).now,
            next_step(old(self).server_id, old(self).user_id, old(self).threshold_minutes, old(self).now, old(self).phase, event, final(self).phase, action),
    {
        let mut phase = RefreshPhase::Finished;
        core::mem::swap(&mut phase, &mut self.phase);
        match (phase, event) {
            (RefreshPhase::Loading, RefreshEvent::Loaded(None)) => RefreshAction::Done(Ok(None)),
            (RefreshPhase::Loading, RefreshEvent::Loaded(Some(t))) => {
                match is_token_expired_or_expiring(&t, self.threshold_minutes, self.now) {
                    Ok(false) => {
                        self.phase = RefreshPhase::Validating(t.clone());
                        RefreshAction::Validate(t)
                    },
                    Ok(true) => {
                        self.phase = RefreshPhase::Reauthenticating;
                        RefreshAction::Reauthenticate
                    },
                    Err(e) => RefreshAction::Done(Err(e)),
                }
            },
            (RefreshPhase::Validating(t), RefreshEvent::Validated(valid)) => {
                if valid {
                    RefreshAction::Done(Ok(Some(t)))
                } else {
                    self.phase = RefreshPhase::Reauthenticating;
                    RefreshAction::Reauthenticate
                }
            },
            (RefreshPhase::Reauthenticating, RefreshEvent::Reauthenticated(outcome)) => {
                match outcome {
                    Ok(n) => {
                        let k = StoredToken { server_id: self.server_id.clone(), user_id: self.user_id.clone(), ..n };
                        self.phase = RefreshPhase::Storing(k.clone());
                        RefreshAction::Store(k)
                    },
                    Err(m) => RefreshAction::Done(Err(BoundaryError::RefreshFailed(m))),
                }
            },
            (RefreshPhase::Storing(n), RefreshEvent::Stored(outcome)) => {
                match outcome {
                    Ok(()) => RefreshAction::Done(Ok(Some(n))),
                    Err(e) => RefreshAction::Done(Err(e)),
                }
            },
            (p, _) => {
                self.phase = p;
                RefreshAction::Done(Err(BoundaryError::Process(owned("event out of turn"))))
            },
        }
    }
}

} // verus!
