//! The error taxonomy of the authentication flow.

use vstd::prelude::*;
use vstd::string::StringExecFns;

verus! {

/// Everything that can go wrong in one login attempt.
///
/// `ReqwestError` carries the text of a network failure; `GitHubError` a
/// provider error (a non-success status or an empty access token);
/// `ParseError` a response that could not be read; `BackendSyncFailed` a
/// backend that answered but did not acknowledge; `CallbackTimeout` the
/// elapsed wait for a callback; `Cancelled` a delivery channel dropped
/// without a value; `InvalidState` a callback whose correlation token is
/// unknown or expired; `DeepLinkError` a callback URI without the needed
/// parameters; `ServerStartError` a loopback listener that could not bind;
/// `InternalError` a broken precondition of the flow itself.
#[derive(Debug, Clone)]
pub enum AuthError {
    ReqwestError(String),
    ServerStartError(String),
    InvalidState,
    GitHubError(String),
    CallbackTimeout,
    ParseError(String),
    InternalError(String),
    Cancelled,
    BackendSyncFailed(String),
    DeepLinkError(String),
}

impl AuthError {
    /// The cause as one human-readable line.
    pub fn message(&self) -> (r: String)
        ensures
            match self {
                AuthError::ReqwestError(s) => r@ == "network request failed: "@ + s@,
                AuthError::ServerStartError(s) => r@
                    == "failed to start the local callback server: "@ + s@,
                AuthError::InvalidState => r@ == "received an invalid CSRF state"@,
                AuthError::GitHubError(s) => r@ == "GitHub returned an error: "@ + s@,
                AuthError::CallbackTimeout => r@ == "the callback timed out or was cancelled"@,
                AuthError::ParseError(s) => r@ == "failed to parse the response: "@ + s@,
                AuthError::InternalError(s) => r@ == "internal error: "@ + s@,
                AuthError::Cancelled => r@
                    == "the user or the system cancelled the authentication"@,
                AuthError::BackendSyncFailed(s) => r@
                    == "failed to sync the user data to the backend: "@ + s@,
                AuthError::DeepLinkError(s) => r@ == "deep link error: "@ + s@,
            },
    {
        match self {
            AuthError::ReqwestError(s) => prefixed("network request failed: ", s),
            AuthError::ServerStartError(s) => prefixed(
                "failed to start the local callback server: ",
                s,
            ),
            AuthError::InvalidState => String::from_str("received an invalid CSRF state"),
            AuthError::GitHubError(s) => prefixed("GitHub returned an error: ", s),
            AuthError::CallbackTimeout => String::from_str(
                "the callback timed out or was cancelled",
            ),
            AuthError::ParseError(s) => prefixed("failed to parse the response: ", s),
            AuthError::InternalError(s) => prefixed("internal error: ", s),
            AuthError::Cancelled => String::from_str(
                "the user or the system cancelled the authentication",
            ),
            AuthError::BackendSyncFailed(s) => prefixed(
                "failed to sync the user data to the backend: ",
                s,
            ),
            AuthError::DeepLinkError(s) => prefixed("deep link error: ", s),
        }
    }
}

/// The prefix followed by the detail text.
fn prefixed(prefix: &str, detail: &String) -> (r: String)
    ensures
        r@ == prefix@ + detail@,
{
    let mut m = String::from_str(prefix);
    m.append(detail.as_str());
    m
}

} // verus!
