//! The failures that the library reports.

use vstd::prelude::*;

verus! {

/// Why an operation against the gateway or the credential store failed.
#[derive(Clone, Debug)]
pub enum BoundaryError {
    /// The CLI could not be started or did not finish in time.
    Process(String),
    /// The CLI ran and exited with a failure status.
    Cli { exit_code: i32, stderr: String },
    /// The CLI's output did not have the expected shape.
    Parse(String),
    /// The connection output held no usable local port.
    ConnectionParse(String),
    /// No token is stored for the identity.
    NotFound,
    /// The stored token is past its expiry.
    Expired,
    /// Obtaining a fresh token failed.
    RefreshFailed(String),
}

} // verus!
