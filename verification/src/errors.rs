//! The error taxonomy of the token lifecycle.
//!
//! Every boundary step — reading credentials, binding the redirect
//! listener, talking to the authorization server, decoding its response,
//! persisting a record — reports one of these typed outcomes instead of
//! aborting the process. None of them is retried automatically.

use vstd::prelude::*;

verus! {

/// What can go wrong while obtaining or refreshing a token.
#[derive(Debug, Clone, Copy, PartialEq, Eq, Structural)]
pub enum AuthError {
    /// Client credentials are missing or unusable; the user must re-enter
    /// them before any flow can run.
    ConfigError,
    /// Transport failure reaching the authorization server, or a failure
    /// to bind the local redirect listener (port already in use).
    NetworkError,
    /// The token or authorize endpoint answered with a non-2xx status,
    /// e.g. an invalid or expired code, or rejected credentials.
    AuthServerError { status: u16 },
    /// The response body did not match the expected token-record shape.
    DecodeError,
    /// The persistence layer failed; an in-memory token may still serve
    /// the current invocation but will not survive to the next.
    StorageError,
}

/// True exactly on the HTTP statuses that count as success for the token
/// endpoint.
pub open spec fn spec_is_success_status(status: u16) -> bool {
    200 <= status < 300
}

/// Classifies a token-endpoint HTTP status: any 2xx answer is success,
/// everything else surfaces as an `AuthServerError` carrying the status.
pub fn classify_status(status: u16) -> (r: Result<(), AuthError>)
    ensures
        spec_is_success_status(status) ==> r is Ok,
        !spec_is_success_status(status) ==> r == Result::<(), AuthError>::Err(
            AuthError::AuthServerError { status },
        ),
{
    if 200 <= status && status < 300 {
        Ok(())
    } else {
        Err(AuthError::AuthServerError { status })
    }
}

impl AuthError {
    /// A short human-readable description, for the top-level invocation
    /// boundary to print.
    pub fn describe(&self) -> (r: String)
        ensures
            *self is ConfigError ==> r@ == "missing or invalid client credentials"@,
            *self is NetworkError ==> r@ == "could not reach the authorization server or bind the local listener"@,
            *self is AuthServerError ==> r@ == "the authorization server rejected the request"@,
            *self is DecodeError ==> r@ == "the authorization server's response could not be decoded"@,
            *self is StorageError ==> r@ == "the credential store failed"@,
    {
        match self {
            AuthError::ConfigError => String::from_str("missing or invalid client credentials"),
            AuthError::NetworkError => String::from_str(
                "could not reach the authorization server or bind the local listener",
            ),
            AuthError::AuthServerError { status: _ } => String::from_str(
                "the authorization server rejected the request",
            ),
            AuthError::DecodeError => String::from_str(
                "the authorization server's response could not be decoded",
            ),
            AuthError::StorageError => String::from_str("the credential store failed"),
        }
    }
}

} // verus!
