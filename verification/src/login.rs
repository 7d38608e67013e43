//! Starting a login attempt: the correlation token, the provider
//! authorization URL, and the registration of the pending entry.

use vstd::prelude::*;
use vstd::string::{StrSliceExecFns, StringExecFns, StringSliceAdditionalSpecFns};
use crate::errors::AuthError;
use crate::store::CorrelationStore;

verus! {

/// A byte that percent-encoding leaves as it is: an ASCII alphanumeric or
/// one of `-`, `.`, `_`, `~`.
pub open spec fn is_unreserved_byte(b: u8) -> bool {
    (0x30 <= b && b <= 0x39) || (0x41 <= b && b <= 0x5a) || (0x61 <= b && b <= 0x7a) || b == 0x2d
        || b == 0x2e || b == 0x5f || b == 0x7e
}

/// The uppercase hexadecimal digit for `d`.
pub open spec fn upper_hex_digit(d: u8) -> char {
    if d == 0 {
        '0'
    } else if d == 1 {
        '1'
    } else if d == 2 {
        '2'
    } else if d == 3 {
        '3'
    } else if d == 4 {
        '4'
    } else if d == 5 {
        '5'
    } else if d == 6 {
        '6'
    } else if d == 7 {
        '7'
    } else if d == 8 {
        '8'
    } else if d == 9 {
        '9'
    } else if d == 10 {
        'A'
    } else if d == 11 {
        'B'
    } else if d == 12 {
        'C'
    } else if d == 13 {
        'D'
    } else if d == 14 {
        'E'
    } else {
        'F'
    }
}

/// How percent-encoding writes one byte.
pub open spec fn percent_encode_byte(b: u8) -> Seq<char> {
    if is_unreserved_byte(b) {
        seq![b as char]
    } else {
        seq!['%', upper_hex_digit(b / 16), upper_hex_digit(b % 16)]
    }
}

/// The percent-encoding of a byte string.
pub open spec fn percent_encoding_of(bytes: Seq<u8>) -> Seq<char>
    decreases bytes.len(),
{
    if bytes.len() == 0 {
        Seq::empty()
    } else {
        percent_encode_byte(bytes[0]) + percent_encoding_of(bytes.drop_first())
    }
}

/// Relies on `urlencoding::encode`: percent-encodes every byte of the
/// string's UTF-8 form except ASCII alphanumerics and `-`, `.`, `_`, `~`,
/// writing two uppercase hexadecimal digits after each `%`.
#[verifier::external_body]
fn url_encode(s: &str) -> (r: String)
    ensures
        r@ == percent_encoding_of(s.spec_bytes()),
{
    urlencoding::encode(s).into_owned()
}

/// An ASCII alphanumeric character.
pub open spec fn is_alphanumeric_char(c: char) -> bool {
    let u = c as u32;
    (0x30 <= u && u <= 0x39) || (0x41 <= u && u <= 0x5a) || (0x61 <= u && u <= 0x7a)
}

/// Relies on rand's `Alphanumeric` distribution sampled through
/// `SampleString`: the result holds exactly `len` characters, each drawn
/// from `[0-9A-Za-z]`. Nothing is assumed of which characters come out.
#[verifier::external_body]
pub fn generate_correlation_token(len: usize) -> (r: String)
    ensures
        r@.len() == len,
        forall|i: int| 0 <= i < r@.len() ==> is_alphanumeric_char(#[trigger] r@[i]),
{
    rand::distr::SampleString::sample_string(&rand::distr::Alphanumeric, &mut rand::rng(), len)
}

/// The provider authorization URL for one attempt: endpoint, client id, the
/// percent-encoded redirect URI and scope, and the correlation token as the
/// `state` parameter.
pub fn build_authorize_url(client_id: &str, redirect_uri: &str, scope: &str, state_token: &str) -> (r:
    String)
    ensures
        r@ == "https://github.com/login/oauth/authorize?client_id="@ + client_id@
            + "&redirect_uri="@ + percent_encoding_of(redirect_uri.spec_bytes()) + "&scope="@
            + percent_encoding_of(scope.spec_bytes()) + "&state="@ + state_token@,
{
    let mut url = String::from_str("https://github.com/login/oauth/authorize?client_id=");
    url.append(client_id);
    url.append("&redirect_uri=");
    let enc_redirect = url_encode(redirect_uri);
    url.append(enc_redirect.as_str());
    url.append("&scope=");
    let enc_scope = url_encode(scope);
    url.append(enc_scope.as_str());
    url.append("&state=");
    url.append(state_token);
    proof {
        assert(url@ =~= "https://github.com/login/oauth/authorize?client_id="@ + client_id@
            + "&redirect_uri="@ + percent_encoding_of(redirect_uri.spec_bytes()) + "&scope="@
            + percent_encoding_of(scope.spec_bytes()) + "&state="@ + state_token@);
    }
    url
}

/// Opens one login attempt: checks the configured client id, builds the
/// authorization URL, and registers the pending entry under the correlation
/// token. An empty client id and a token that is already pending are both
/// internal errors that leave the store untouched (the token is drawn at
/// random by the caller, so a collision means the caller broke its side).
pub fn begin_login<V>(
    store: &mut CorrelationStore<V>,
    client_id: &str,
    redirect_uri: &str,
    scope: &str,
    state_token: String,
    channel: V,
) -> (r: Result<String, AuthError>)
    requires
        old(store).wf(),
    ensures
        final(store).wf(),
        client_id@.len() == 0 ==> ({
            &&& r matches Err(e)
            &&& e is InternalError
            &&& final(store)@ == old(store)@
        }),
        client_id@.len() > 0 && old(store)@.contains_key(state_token@) ==> ({
            &&& r matches Err(e)
            &&& e is InternalError
            &&& final(store)@ == old(store)@
        }),
        client_id@.len() > 0 && !old(store)@.contains_key(state_token@) ==> {
            &&& final(store)@ == old(store)@.insert(state_token@, channel)
            &&& r matches Ok(u) && u@ == "https://github.com/login/oauth/authorize?client_id="@
                + client_id@ + "&redirect_uri="@ + percent_encoding_of(redirect_uri.spec_bytes())
                + "&scope="@ + percent_encoding_of(scope.spec_bytes()) + "&state="@ + state_token@
        },
{
    if client_id.unicode_len() == 0 {
        return Err(AuthError::InternalError("the configured client id is empty".to_owned()));
    }
    let url = build_authorize_url(client_id, redirect_uri, scope, state_token.as_str());
    if store.register(state_token, channel) {
        Ok(url)
    } else {
        Err(AuthError::InternalError("the correlation token is already pending".to_owned()))
    }
}

} // verus!
