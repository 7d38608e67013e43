//! The three pipeline steps that follow a delivered authorization code:
//! code exchange, profile fetch, backend sync. The network round trips live
//! in the application; this module owns the decisions — what each response
//! status and body mean.
//!
//! Reading a JSON body goes through serde_json, which is deterministic in
//! the body text: what it extracts is named (`token_field_of`,
//! `profile_fields_of`, `sync_fields_of`) and each trusted wrapper promises
//! to return exactly the named fields. The `*_from_fields` functions then
//! decide the outcome and are verified for every value of the fields, so
//! each `interpret_*` function owes, over the names, an exact result on
//! every status and body.

use vstd::prelude::*;
use vstd::string::{StrSliceExecFns, StringExecFns};
use crate::errors::AuthError;
use crate::text::{spec_decimal, u64_to_string};

verus! {

/// The externally visible identity record fetched from the provider.
#[derive(Debug, Clone)]
pub struct GithubUserProfile {
    pub login: String,
    pub id: u64,
    pub name: Option<String>,
    pub avatar_url: String,
    pub email: Option<String>,
}

/// Whether an optional owned string realizes an optional character
/// sequence.
pub open spec fn opt_str_matches(o: Option<String>, v: Option<Seq<char>>) -> bool {
    match (o, v) {
        (Some(a), Some(b)) => a@ == b,
        (None, None) => true,
        _ => false,
    }
}

/// The `access_token` string member of a token-exchange body, as serde_json
/// reads it: a function of the body text alone.
pub uninterp spec fn token_field_of(body: Seq<char>) -> Option<Seq<char>>;

/// Relies on serde_json (`from_str::<Value>`, `Value::get`, `Value::as_str`):
/// the `access_token` string member of the body, present exactly when the
/// text is a JSON document whose object holds a string under that key.
#[verifier::external_body]
fn extract_token_field(body: &str) -> (r: Option<String>)
    ensures
        match r {
            Some(t) => token_field_of(body@) == Some(t@),
            None => token_field_of(body@) is None,
        },
{
    let v: serde_json::Value = match serde_json::from_str(body) {
        Ok(v) => v,
        Err(_) => return None,
    };
    match v.get("access_token") {
        Some(member) => member.as_str().map(str::to_owned),
        None => None,
    }
}

/// The profile members of a profile-fetch body — `login`, `id`, `name`,
/// `avatar_url`, `email` — as serde_json reads them: a function of the body
/// text alone.
pub uninterp spec fn profile_fields_of(body: Seq<char>) -> (
    Option<Seq<char>>,
    Option<u64>,
    Option<Seq<char>>,
    Option<Seq<char>>,
    Option<Seq<char>>,
);

/// Relies on serde_json (`from_str::<Value>`, `Value::get`, `Value::as_str`,
/// `Value::as_u64`): the string members `login`, `name`, `avatar_url` and
/// `email` and the integer member `id` of the body.
#[verifier::external_body]
fn extract_profile_fields(body: &str) -> (r: (
    Option<String>,
    Option<u64>,
    Option<String>,
    Option<String>,
    Option<String>,
))
    ensures
        opt_str_matches(r.0, profile_fields_of(body@).0),
        r.1 == profile_fields_of(body@).1,
        opt_str_matches(r.2, profile_fields_of(body@).2),
        opt_str_matches(r.3, profile_fields_of(body@).3),
        opt_str_matches(r.4, profile_fields_of(body@).4),
{
    let v: serde_json::Value = match serde_json::from_str(body) {
        Ok(v) => v,
        Err(_) => return (None, None, None, None, None),
    };
    let text = |key: &str| v.get(key).and_then(|m| m.as_str().map(str::to_owned));
    let id = v.get("id").and_then(|m| m.as_u64());
    (text("login"), id, text("name"), text("avatar_url"), text("email"))
}

/// The `success` boolean member and the `message` string member of a
/// backend-sync body, as serde_json reads them: a function of the body text
/// alone.
pub uninterp spec fn sync_fields_of(body: Seq<char>) -> (Option<bool>, Option<Seq<char>>);

/// Relies on serde_json (`from_str::<Value>`, `Value::get`, `Value::as_bool`,
/// `Value::as_str`): the `success` and `message` members of the body.
#[verifier::external_body]
fn extract_sync_fields(body: &str) -> (r: (Option<bool>, Option<String>))
    ensures
        r.0 == sync_fields_of(body@).0,
        opt_str_matches(r.1, sync_fields_of(body@).1),
{
    let v: serde_json::Value = match serde_json::from_str(body) {
        Ok(v) => v,
        Err(_) => return (None, None),
    };
    let flag = v.get("success").and_then(|m| m.as_bool());
    let message = v.get("message").and_then(|m| m.as_str().map(str::to_owned));
    (flag, message)
}

/// A status in the success range.
pub open spec fn is_success_status(status: u16) -> bool {
    200 <= status && status < 300
}

/// The message reported for a step that failed with an HTTP error status.
pub open spec fn spec_status_message(prefix: Seq<char>, status: u16, body: Seq<char>) -> Seq<
    char,
> {
    prefix + spec_decimal(status as nat) + "): "@ + body
}

/// Writes the message for a step that failed with an HTTP error status.
fn status_message(prefix: &str, status: u16, body: &str) -> (r: String)
    ensures
        r@ == spec_status_message(prefix@, status, body@),
{
    let mut m = String::from_str(prefix);
    let digits = u64_to_string(status as u64);
    m.append(digits.as_str());
    m.append("): ");
    m.append(body);
    proof {
        assert(m@ =~= spec_status_message(prefix@, status, body@));
    }
    m
}

/// Decides the outcome of the code exchange from the response status and
/// the `access_token` member of its body: an error status is a provider
/// error carrying status and body; a success body without the member cannot
/// be read; an empty access token is a provider error; otherwise the token
/// is the result.
pub fn token_from_fields(status: u16, token_field: Option<String>, body: &str) -> (r: Result<
    String,
    AuthError,
>)
    ensures
        !is_success_status(status) ==> ({
            &&& r matches Err(AuthError::GitHubError(m))
            &&& m@ == spec_status_message("code exchange failed (status "@, status, body@)
        }),
        is_success_status(status) && token_field is None ==> ({
            &&& r matches Err(AuthError::ParseError(m))
            &&& m@ == "the token response holds no access_token"@
        }),
        is_success_status(status) && (token_field matches Some(t) && t@.len() == 0) ==> ({
            &&& r matches Err(AuthError::GitHubError(m))
            &&& m@ == "received an empty access token"@
        }),
        is_success_status(status) && (token_field matches Some(t) && t@.len() > 0) ==> ({
            &&& r matches Ok(tok)
            &&& Some(tok) == token_field
        }),
{
    if !(status >= 200 && status < 300) {
        return Err(
            AuthError::GitHubError(status_message("code exchange failed (status ", status, body)),
        );
    }
    match token_field {
        None => Err(
            AuthError::ParseError("the token response holds no access_token".to_owned()),
        ),
        Some(tok) => {
            if tok.as_str().is_empty() {
                Err(AuthError::GitHubError("received an empty access token".to_owned()))
            } else {
                Ok(tok)
            }
        },
    }
}

/// Interprets the whole token-exchange response: an error status is a
/// provider error carrying status and body; within the success range the
/// result is exactly the [`token_from_fields`] decision on the body's
/// `access_token` member.
pub fn interpret_token_response(status: u16, body: &str) -> (r: Result<String, AuthError>)
    ensures
        !is_success_status(status) ==> ({
            &&& r matches Err(AuthError::GitHubError(m))
            &&& m@ == spec_status_message("code exchange failed (status "@, status, body@)
        }),
        is_success_status(status) ==> ({
            let tf = token_field_of(body@);
            &&& tf is None ==> ({
                &&& r matches Err(AuthError::ParseError(m))
                &&& m@ == "the token response holds no access_token"@
            })
            &&& (tf matches Some(t) && t.len() == 0) ==> ({
                &&& r matches Err(AuthError::GitHubError(m))
                &&& m@ == "received an empty access token"@
            })
            &&& (tf matches Some(t) && t.len() > 0) ==> ({
                &&& r matches Ok(tok)
                &&& Some(tok@) == tf
            })
        }),
{
    if !(status >= 200 && status < 300) {
        return Err(
            AuthError::GitHubError(status_message("code exchange failed (status ", status, body)),
        );
    }
    let token_field = extract_token_field(body);
    token_from_fields(status, token_field, body)
}

/// Assembles a profile from its fields: the login, the id and the avatar
/// URL are required, the display name and the email optional.
pub fn profile_from_fields(
    login: Option<String>,
    id: Option<u64>,
    name: Option<String>,
    avatar_url: Option<String>,
    email: Option<String>,
) -> (r: Option<GithubUserProfile>)
    ensures
        r is Some <==> login is Some && id is Some && avatar_url is Some,
        r matches Some(p) ==> ({
            &&& Some(p.login) == login
            &&& Some(p.id) == id
            &&& Some(p.avatar_url) == avatar_url
            &&& p.name == name
            &&& p.email == email
        }),
{
    match (login, id, avatar_url) {
        (Some(login), Some(id), Some(avatar_url)) => Some(
            GithubUserProfile { login, id, name, avatar_url, email },
        ),
        _ => None,
    }
}

/// Interprets the whole profile-fetch response: an error status is a
/// provider error carrying status and body; within the success range the
/// result is a profile holding exactly the body's members when `login`,
/// `id` and `avatar_url` are all present, and a parse error otherwise, as
/// [`profile_from_fields`] decides.
pub fn interpret_profile_response(status: u16, body: &str) -> (r: Result<
    GithubUserProfile,
    AuthError,
>)
    ensures
        !is_success_status(status) ==> ({
            &&& r matches Err(AuthError::GitHubError(m))
            &&& m@ == spec_status_message("profile fetch failed (status "@, status, body@)
        }),
        is_success_status(status) ==> ({
            let f = profile_fields_of(body@);
            &&& (f.0 is Some && f.1 is Some && f.3 is Some) ==> ({
                &&& r matches Ok(p)
                &&& f.0 == Some(p.login@)
                &&& f.1 == Some(p.id)
                &&& opt_str_matches(p.name, f.2)
                &&& f.3 == Some(p.avatar_url@)
                &&& opt_str_matches(p.email, f.4)
            })
            &&& !(f.0 is Some && f.1 is Some && f.3 is Some) ==> ({
                &&& r matches Err(AuthError::ParseError(m))
                &&& m@ == "the profile response does not hold a user record"@
            })
        }),
{
    if !(status >= 200 && status < 300) {
        return Err(
            AuthError::GitHubError(status_message("profile fetch failed (status ", status, body)),
        );
    }
    let (login, id, name, avatar_url, email) = extract_profile_fields(body);
    let profile = profile_from_fields(login, id, name, avatar_url, email);
    match profile {
        Some(p) => Ok(p),
        None => Err(
            AuthError::ParseError("the profile response does not hold a user record".to_owned()),
        ),
    }
}

/// Decides the outcome of the backend sync from the response status and the
/// `success` and `message` members of its body: an error status is a sync
/// failure carrying status and body; a success body without a readable
/// `success` flag cannot be parsed; an explicit `success: false` is a sync
/// failure carrying the backend's message; only `success: true` is success.
pub fn sync_from_fields(
    status: u16,
    success_flag: Option<bool>,
    message: Option<String>,
    body: &str,
) -> (r: Result<(), AuthError>)
    ensures
        !is_success_status(status) ==> ({
            &&& r matches Err(AuthError::BackendSyncFailed(m))
            &&& m@ == spec_status_message("backend sync failed (status "@, status, body@)
        }),
        is_success_status(status) && success_flag is None ==> ({
            &&& r matches Err(AuthError::ParseError(m))
            &&& m@ == "the backend acknowledgement could not be read"@
        }),
        is_success_status(status) && success_flag == Some(false) ==> ({
            &&& r matches Err(AuthError::BackendSyncFailed(m))
            &&& m@ == "the backend reported failure: "@ + (match message {
                Some(msg) => msg@,
                None => Seq::<char>::empty(),
            })
        }),
        is_success_status(status) && success_flag == Some(true) ==> r is Ok,
{
    if !(status >= 200 && status < 300) {
        return Err(
            AuthError::BackendSyncFailed(
                status_message("backend sync failed (status ", status, body),
            ),
        );
    }
    match success_flag {
        None => Err(AuthError::ParseError("the backend acknowledgement could not be read".to_owned())),
        Some(true) => Ok(()),
        Some(false) => {
            let mut m = String::from_str("the backend reported failure: ");
            match message {
                Some(msg) => {
                    m.append(msg.as_str());
                },
                None => {},
            }
            proof {
                assert(m@ =~= "the backend reported failure: "@ + (match message {
                    Some(msg) => msg@,
                    None => Seq::<char>::empty(),
                }));
            }
            Err(AuthError::BackendSyncFailed(m))
        },
    }
}

/// Interprets the whole backend-sync response: an error status is a sync
/// failure carrying status and body; within the success range the result is
/// exactly the [`sync_from_fields`] decision on the body's `success` and
/// `message` members — a transport-level success with `success: false` in
/// the body is still a failure.
pub fn interpret_sync_response(status: u16, body: &str) -> (r: Result<(), AuthError>)
    ensures
        !is_success_status(status) ==> ({
            &&& r matches Err(AuthError::BackendSyncFailed(m))
            &&& m@ == spec_status_message("backend sync failed (status "@, status, body@)
        }),
        is_success_status(status) ==> ({
            let f = sync_fields_of(body@);
            &&& f.0 is None ==> ({
                &&& r matches Err(AuthError::ParseError(m))
                &&& m@ == "the backend acknowledgement could not be read"@
            })
            &&& f.0 == Some(true) ==> r is Ok
            &&& f.0 == Some(false) ==> ({
                &&& r matches Err(AuthError::BackendSyncFailed(m))
                &&& m@ == "the backend reported failure: "@ + (match f.1 {
                    Some(msg) => msg,
                    None => Seq::<char>::empty(),
                })
            })
        }),
{
    if !(status >= 200 && status < 300) {
        return Err(
            AuthError::BackendSyncFailed(
                status_message("backend sync failed (status ", status, body),
            ),
        );
    }
    let (success_flag, message) = extract_sync_fields(body);
    proof {
        assert(success_flag is None || success_flag == Some(true) || success_flag == Some(false));
    }
    sync_from_fields(status, success_flag, message, body)
}

} // verus!
