//! Reading a callback: the query parameters of the redirect, and the
//! OS-delivered deep-link URI.
//!
//! The query grammar is the common form-encoded one: pairs split on `&`,
//! empty segments skipped, each segment split at its first `=` (a segment
//! without `=` has an empty value), a later pair for a name overriding an
//! earlier one, and both halves percent-decoded. Decoding first yields
//! bytes — `+` a space, `%XX` with two hexadecimal digits that byte, any
//! other character its UTF-8 bytes, a `%` without two hexadecimal digits
//! kept as written — and the bytes then read as UTF-8, invalid sequences
//! replaced as `String::from_utf8_lossy` replaces them.

use vstd::prelude::*;
use vstd::string::{StrSliceExecFns, StringSliceAdditionalSpecFns};
use vstd::utf8::{decode_utf8, encode_utf8, valid_utf8};
use crate::store::CorrelationStore;
use crate::text::{find_char, lemma_find_char_bounds, spec_find_char, spec_starts_with, starts_with_str, str_eq};

verus! {

/// A hexadecimal digit, either case.
pub open spec fn is_hex_digit(c: char) -> bool {
    let u = c as u32;
    (0x30 <= u && u <= 0x39) || (0x41 <= u && u <= 0x46) || (0x61 <= u && u <= 0x66)
}

/// The value of a hexadecimal digit.
pub open spec fn hex_val(c: char) -> int {
    let u = c as u32;
    if u <= 0x39 {
        u - 0x30
    } else if u <= 0x46 {
        u - 0x41 + 10
    } else {
        u - 0x61 + 10
    }
}

fn is_hex_digit_char(c: char) -> (r: bool)
    ensures
        r == is_hex_digit(c),
{
    let u = c as u32;
    (0x30 <= u && u <= 0x39) || (0x41 <= u && u <= 0x46) || (0x61 <= u && u <= 0x66)
}

fn hex_val_char(c: char) -> (r: u32)
    requires
        is_hex_digit(c),
    ensures
        r == hex_val(c),
{
    let u = c as u32;
    if u <= 0x39 {
        u - 0x30
    } else if u <= 0x46 {
        u - 0x41 + 10
    } else {
        u - 0x61 + 10
    }
}

/// The bytes a query component decodes to, from position `i` on: `+` is a
/// space, `%XX` with two hexadecimal digits is that byte, any other
/// character contributes its UTF-8 bytes (so a `%` without two hexadecimal
/// digits after it is kept as written).
pub open spec fn spec_pct_decode_bytes(q: Seq<char>, i: int) -> Seq<u8>
    decreases q.len() - i,
{
    if i < 0 || i >= q.len() {
        Seq::empty()
    } else if q[i] == '+' {
        seq![0x20u8] + spec_pct_decode_bytes(q, i + 1)
    } else if q[i] == '%' && i + 2 < q.len() && is_hex_digit(q[i + 1]) && is_hex_digit(q[i + 2]) {
        seq![(hex_val(q[i + 1]) * 16 + hex_val(q[i + 2])) as u8] + spec_pct_decode_bytes(q, i + 3)
    } else {
        encode_utf8(seq![q[i]]) + spec_pct_decode_bytes(q, i + 1)
    }
}

/// What `String::from_utf8_lossy` reads out of these bytes.
pub uninterp spec fn utf8_lossy_of(bytes: Seq<u8>) -> Seq<char>;

/// Relies on `String::from_utf8_lossy`: the characters of the bytes, with
/// every invalid UTF-8 sequence replaced; valid UTF-8 is read unchanged.
#[verifier::external_body]
fn utf8_lossy(bytes: Vec<u8>) -> (r: String)
    ensures
        r@ == utf8_lossy_of(bytes@),
        valid_utf8(bytes@) ==> r@ == decode_utf8(bytes@),
{
    String::from_utf8_lossy(&bytes).into_owned()
}

/// The percent-decoding of a whole component.
pub open spec fn spec_pct_decode(q: Seq<char>) -> Seq<char> {
    utf8_lossy_of(spec_pct_decode_bytes(q, 0))
}

fn pct_decode_bytes(q: &str, n: usize, i: usize, out: &mut Vec<u8>)
    requires
        n == q@.len(),
        i <= n,
    ensures
        final(out)@ == old(out)@ + spec_pct_decode_bytes(q@, i as int),
    decreases n - i,
{
    if i == n {
        proof {
            assert(out@ + spec_pct_decode_bytes(q@, i as int) =~= out@);
        }
        return ;
    }
    let c = q.get_char(i);
    if c == '+' {
        out.push(0x20);
        pct_decode_bytes(q, n, i + 1, out);
        proof {
            assert(old(out)@.push(0x20u8) + spec_pct_decode_bytes(q@, i + 1) =~= old(out)@ + (seq![
                0x20u8,
            ] + spec_pct_decode_bytes(q@, i + 1)));
        }
        return ;
    }
    if c == '%' && n - i > 2 {
        let c1 = q.get_char(i + 1);
        let c2 = q.get_char(i + 2);
        if is_hex_digit_char(c1) && is_hex_digit_char(c2) {
            let v = hex_val_char(c1) * 16 + hex_val_char(c2);
            let b = v as u8;
            out.push(b);
            pct_decode_bytes(q, n, i + 3, out);
            proof {
                assert(old(out)@.push(b) + spec_pct_decode_bytes(q@, i + 3) =~= old(out)@ + (seq![b]
                    + spec_pct_decode_bytes(q@, i + 3)));
            }
            return ;
        }
    }
    // any other character contributes its own UTF-8 bytes
    let piece = q.substring_char(i, i + 1);
    let mut piece_bytes = piece.as_bytes_vec();
    let ghost pb = piece_bytes@;
    proof {
        assert(piece@ =~= seq![q@[i as int]]);
    }
    out.append(&mut piece_bytes);
    pct_decode_bytes(q, n, i + 1, out);
    proof {
        assert((old(out)@ + pb) + spec_pct_decode_bytes(q@, i + 1) =~= old(out)@ + (pb
            + spec_pct_decode_bytes(q@, i + 1)));
    }
}

/// Percent-decodes one query component.
pub fn pct_decode(q: &str) -> (r: String)
    ensures
        r@ == spec_pct_decode(q@),
{
    let mut bytes: Vec<u8> = Vec::new();
    let n = q.unicode_len();
    pct_decode_bytes(q, n, 0, &mut bytes);
    proof {
        assert(Seq::<u8>::empty() + spec_pct_decode_bytes(q@, 0) =~= spec_pct_decode_bytes(q@, 0));
    }
    utf8_lossy(bytes)
}

/// The decoded name/value pairs of the query text from position `i` on.
pub open spec fn spec_query_pairs(q: Seq<char>, i: int) -> Seq<(Seq<char>, Seq<char>)>
    decreases q.len() - i,
    via spec_query_pairs_dec
{
    if i < 0 || i >= q.len() {
        Seq::empty()
    } else {
        let amp = spec_find_char(q, i, '&');
        let rest = if amp >= q.len() {
            Seq::empty()
        } else {
            spec_query_pairs(q, amp + 1)
        };
        if amp == i {
            rest
        } else {
            let seg = q.subrange(i, amp);
            let eqp = spec_find_char(seg, 0, '=');
            let name = spec_pct_decode(seg.subrange(0, eqp));
            let value = if eqp == seg.len() {
                Seq::empty()
            } else {
                spec_pct_decode(seg.subrange(eqp + 1, seg.len() as int))
            };
            seq![(name, value)] + rest
        }
    }
}

#[via_fn]
proof fn spec_query_pairs_dec(q: Seq<char>, i: int) {
    if 0 <= i < q.len() {
        lemma_find_char_bounds(q, i, '&');
    }
}

/// The value of the last pair named `name`, as a query-collecting map
/// observes it (a later pair overrides an earlier one).
pub open spec fn spec_lookup_param(pairs: Seq<(Seq<char>, Seq<char>)>, name: Seq<char>) -> Option<
    Seq<char>,
>
    decreases pairs.len(),
{
    if pairs.len() == 0 {
        None
    } else {
        let rest = spec_lookup_param(pairs.drop_first(), name);
        if rest is Some {
            rest
        } else if pairs[0].0 == name {
            Some(pairs[0].1)
        } else {
            None
        }
    }
}

/// Finds the decoded value of the last query pair named `name`, scanning
/// the query text from position `i` on.
fn find_param(q: &str, n: usize, i: usize, name: &str) -> (r: Option<String>)
    requires
        n == q@.len(),
        i <= n,
    ensures
        match r {
            Some(v) => spec_lookup_param(spec_query_pairs(q@, i as int), name@) == Some(v@),
            None => spec_lookup_param(spec_query_pairs(q@, i as int), name@) is None,
        },
    decreases n - i,
{
    if i == n {
        return None;
    }
    let amp = find_char(q, n, i, '&');
    let rest: Option<String> = if amp < n {
        find_param(q, n, amp + 1, name)
    } else {
        None
    };
    let ghost pairs = spec_query_pairs(q@, i as int);
    let ghost rest_pairs = if amp as int >= q@.len() {
        Seq::<(Seq<char>, Seq<char>)>::empty()
    } else {
        spec_query_pairs(q@, amp + 1)
    };
    if amp == i {
        // an empty segment contributes nothing
        return rest;
    }
    let seg = q.substring_char(i, amp);
    let segn = amp - i;
    assert(segn == seg@.len());
    let eqp = find_char(seg, segn, 0, '=');
    let raw_name = seg.substring_char(0, eqp);
    let dec_name = pct_decode(raw_name);
    proof {
        assert(pairs == seq![(pairs[0].0, pairs[0].1)] + rest_pairs);
        assert(pairs.drop_first() =~= rest_pairs);
    }
    match rest {
        Some(v) => Some(v),
        None => {
            if str_eq(dec_name.as_str(), name) {
                let value: String = if eqp == segn {
                    String::new()
                } else {
                    let raw_value = seg.substring_char(eqp + 1, segn);
                    pct_decode(raw_value)
                };
                proof {
                    if eqp == segn {
                        assert(value@ =~= pairs[0].1);
                    }
                }
                Some(value)
            } else {
                None
            }
        },
    }
}

/// The query text of a URI: everything after the first `?`, or nothing.
pub open spec fn spec_query_of(u: Seq<char>) -> Seq<char> {
    let qm = spec_find_char(u, 0, '?');
    if qm >= u.len() {
        Seq::empty()
    } else {
        u.subrange(qm + 1, u.len() as int)
    }
}

/// The decoded value of the query parameter `name` of the URI `u`.
pub open spec fn spec_url_param(u: Seq<char>, name: Seq<char>) -> Option<Seq<char>> {
    spec_lookup_param(spec_query_pairs(spec_query_of(u), 0), name)
}

/// Extracts the decoded `code` and `state` parameters of a callback query.
pub fn extract_callback_params(query: &str) -> (r: (Option<String>, Option<String>))
    ensures
        match r.0 {
            Some(v) => spec_lookup_param(spec_query_pairs(query@, 0), "code"@) == Some(v@),
            None => spec_lookup_param(spec_query_pairs(query@, 0), "code"@) is None,
        },
        match r.1 {
            Some(v) => spec_lookup_param(spec_query_pairs(query@, 0), "state"@) == Some(v@),
            None => spec_lookup_param(spec_query_pairs(query@, 0), "state"@) is None,
        },
{
    let n = query.unicode_len();
    (find_param(query, n, 0, "code"), find_param(query, n, 0, "state"))
}

/// What an OS-delivered URI led to.
pub enum DeepLinkOutcome<V> {
    /// The URI does not start with the expected callback base.
    Ignored,
    /// The URI lacks a `code` or a `state` parameter.
    MissingParams,
    /// No entry is pending for the delivered `state` (unknown, expired, or
    /// already consumed).
    InvalidState,
    /// The pending entry was consumed: deliver the code through this value.
    Deliver(V, String),
}

/// Handles a deep-link callback URI against the store: checks the callback
/// base, extracts `code` and `state`, and atomically consumes the pending
/// entry of that `state`.
pub fn handle_deep_link<V>(store: &mut CorrelationStore<V>, base: &str, url: &str) -> (r:
    DeepLinkOutcome<V>)
    requires
        old(store).wf(),
    ensures
        final(store).wf(),
        !spec_starts_with(url@, base@) ==> r is Ignored && final(store)@ == old(store)@,
        spec_starts_with(url@, base@) ==> ({
            let code = spec_url_param(url@, "code"@);
            let tok = spec_url_param(url@, "state"@);
            &&& (code is None || tok is None) ==> r is MissingParams && final(store)@ == old(
                store,
            )@
            &&& (code is Some && tok is Some) ==> ({
                let c = code->Some_0;
                let t = tok->Some_0;
                &&& old(store)@.contains_key(t) ==> ({
                    &&& r matches DeepLinkOutcome::Deliver(v, c2)
                    &&& v == old(store)@[t]
                    &&& c2@ == c
                    &&& final(store)@ == old(store)@.remove(t)
                })
                &&& !old(store)@.contains_key(t) ==> r is InvalidState && final(store)@ == old(
                    store,
                )@
            })
        }),
{
    if !starts_with_str(url, base) {
        return DeepLinkOutcome::Ignored;
    }
    let n = url.unicode_len();
    let qm = find_char(url, n, 0, '?');
    let code_param: Option<String>;
    let state_param: Option<String>;
    if qm == n {
        proof {
            assert(spec_query_of(url@) =~= Seq::<char>::empty());
        }
        code_param = None;
        state_param = None;
        assert(spec_query_pairs(spec_query_of(url@), 0) =~= Seq::<(Seq<char>, Seq<char>)>::empty());
    } else {
        let query = url.substring_char(qm + 1, n);
        assert(query@ == spec_query_of(url@));
        let (c, s) = extract_callback_params(query);
        code_param = c;
        state_param = s;
    }
    let code = match code_param {
        Some(c) => c,
        None => {
            return DeepLinkOutcome::MissingParams;
        },
    };
    let tok = match state_param {
        Some(t) => t,
        None => {
            return DeepLinkOutcome::MissingParams;
        },
    };
    match store.resolve(tok.as_str()) {
        Some(v) => DeepLinkOutcome::Deliver(v, code),
        None => DeepLinkOutcome::InvalidState,
    }
}

} // verus!
