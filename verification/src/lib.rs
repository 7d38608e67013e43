//! Orchestration of a desktop application's GitHub OAuth login.
//!
//! The library holds the verified core of the flow: the environment
//! configuration parser, the correlation store that matches an asynchronous
//! callback to its login attempt, the per-attempt flow state machine, the
//! construction of the provider authorization URL, the parsing of callback
//! URIs, and the interpretation of the three pipeline responses (code
//! exchange, profile fetch, backend sync). Network and OS plumbing lives
//! outside the library and talks to it in plain values.

use vstd::prelude::*;

pub mod addr;
pub mod callback;
pub mod config;
pub mod errors;
pub mod flow;
pub mod login;
pub mod pipeline;
pub mod store;
pub mod text;
pub mod worker;

verus! {

/// The redirect URI registered with the provider: a local loopback address
/// while developing, a custom URI scheme in production.
pub fn get_redirect_uri(dev_mode: bool) -> (r: &'static str)
    ensures
        dev_mode ==> r@ == "http://127.0.0.1:54321/callback"@,
        !dev_mode ==> r@ == "revision://github/callback"@,
{
    if dev_mode {
        "http://127.0.0.1:54321/callback"
    } else {
        "revision://github/callback"
    }
}

/// The base that an OS-delivered callback URI must start with to be handled.
pub fn get_production_callback_base() -> (r: &'static str)
    ensures
        r@ == "revision://github/callback"@,
{
    "revision://github/callback"
}

} // verus!
