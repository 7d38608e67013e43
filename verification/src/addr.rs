//! Where the loopback callback server binds: host and port read out of the
//! configured redirect URI, falling back to `127.0.0.1:54321`.
//!
//! The grammar is the plain loopback case: `scheme://host[:port]/...`, the
//! host a dotted quad (each octet one to three digits, no leading zero) or
//! `localhost`, the port one to five digits. Anything else falls back — an
//! unreadable URI or port to the whole default, an unreadable host to the
//! loopback address.

use vstd::prelude::*;
use vstd::string::StrSliceExecFns;
use crate::text::{find_char, spec_find_char, str_eq};

verus! {

/// A socket address for the loopback server.
#[derive(Debug, Clone, Copy, PartialEq, Eq, Structural)]
pub struct LoopbackAddr {
    pub ip_a: u8,
    pub ip_b: u8,
    pub ip_c: u8,
    pub ip_d: u8,
    pub port: u16,
}

/// The address used when the redirect URI does not parse.
pub open spec fn spec_default_addr() -> LoopbackAddr {
    LoopbackAddr { ip_a: 127, ip_b: 0, ip_c: 0, ip_d: 1, port: 54321 }
}

/// An ASCII decimal digit.
pub open spec fn is_dec_digit(c: char) -> bool {
    0x30 <= c as u32 && c as u32 <= 0x39
}

/// Every character a decimal digit.
pub open spec fn all_dec_digits(s: Seq<char>) -> bool {
    forall|i: int| 0 <= i < s.len() ==> is_dec_digit(#[trigger] s[i])
}

/// The value of a decimal digit string.
pub open spec fn spec_dec_val(s: Seq<char>) -> int
    decreases s.len(),
{
    if s.len() == 0 {
        0
    } else {
        spec_dec_val(s.drop_last()) * 10 + (s.last() as u32 - 0x30)
    }
}

proof fn lemma_dec_val_bound(s: Seq<char>)
    requires
        all_dec_digits(s),
        s.len() <= 5,
    ensures
        0 <= spec_dec_val(s),
        spec_dec_val(s) < 100000,
        s.len() <= 4 ==> spec_dec_val(s) < 10000,
        s.len() <= 3 ==> spec_dec_val(s) < 1000,
        s.len() <= 2 ==> spec_dec_val(s) < 100,
        s.len() <= 1 ==> spec_dec_val(s) < 10,
    decreases s.len(),
{
    if s.len() > 0 {
        assert(all_dec_digits(s.drop_last())) by {
            assert(forall|i: int|
                0 <= i < s.drop_last().len() ==> #[trigger] s.drop_last()[i] == s[i]);
        }
        lemma_dec_val_bound(s.drop_last());
        assert(is_dec_digit(s.last()));
    }
}

/// Whether every character of `s` is a decimal digit.
fn all_dec_digits_exec(s: &str, n: usize, i: usize) -> (r: bool)
    requires
        n == s@.len(),
        i <= n,
    ensures
        r == forall|k: int| i <= k < s@.len() ==> is_dec_digit(#[trigger] s@[k]),
    decreases n - i,
{
    if i == n {
        true
    } else if s.get_char(i) as u32 >= 0x30 && s.get_char(i) as u32 <= 0x39 {
        all_dec_digits_exec(s, n, i + 1)
    } else {
        false
    }
}

/// The value of a digit string of at most five digits.
fn dec_value(s: &str, n: usize) -> (r: u32)
    requires
        n == s@.len(),
        1 <= n <= 5,
        all_dec_digits(s@),
    ensures
        r == spec_dec_val(s@),
{
    let mut acc: u32 = 0;
    let mut i: usize = 0;
    while i < n
        invariant
            n == s@.len(),
            n <= 5,
            i <= n,
            all_dec_digits(s@),
            acc == spec_dec_val(s@.subrange(0, i as int)),
        decreases n - i,
    {
        proof {
            assert(all_dec_digits(s@.subrange(0, i as int))) by {
                assert(forall|k: int|
                    0 <= k < i ==> #[trigger] s@.subrange(0, i as int)[k] == s@[k]);
            }
            lemma_dec_val_bound(s@.subrange(0, i as int));
        }
        let c = s.get_char(i);
        let d = c as u32 - 0x30;
        acc = acc * 10 + d;
        proof {
            assert(s@.subrange(0, i + 1 as int).drop_last() =~= s@.subrange(0, i as int));
        }
        i = i + 1;
    }
    proof {
        assert(s@.subrange(0, n as int) =~= s@);
    }
    acc
}

/// A valid dotted-quad octet: one to three digits, no leading zero, value
/// at most 255.
pub open spec fn is_octet(s: Seq<char>) -> bool {
    &&& 1 <= s.len() <= 3
    &&& all_dec_digits(s)
    &&& (s.len() == 1 || s[0] != '0')
    &&& spec_dec_val(s) <= 255
}

/// Parses one dotted-quad octet.
fn parse_octet(s: &str, n: usize) -> (r: Option<u8>)
    requires
        n == s@.len(),
    ensures
        match r {
            Some(v) => is_octet(s@) && v == spec_dec_val(s@),
            None => !is_octet(s@),
        },
{
    if n < 1 || n > 3 {
        return None;
    }
    if !all_dec_digits_exec(s, n, 0) {
        return None;
    }
    if n > 1 && s.get_char(0) == '0' {
        return None;
    }
    let v = dec_value(s, n);
    proof {
        lemma_dec_val_bound(s@);
    }
    if v <= 255 {
        Some(v as u8)
    } else {
        None
    }
}

/// The loopback address named by a host: a valid dotted quad names its
/// octets, `localhost` and anything unreadable name `127.0.0.1`.
pub open spec fn spec_host_ip(h: Seq<char>) -> (u8, u8, u8, u8) {
    if h == "localhost"@ {
        (127u8, 0u8, 0u8, 1u8)
    } else {
        let d1 = spec_find_char(h, 0, '.');
        if d1 >= h.len() {
            (127u8, 0u8, 0u8, 1u8)
        } else {
            let d2 = spec_find_char(h, d1 + 1, '.');
            if d2 >= h.len() {
                (127u8, 0u8, 0u8, 1u8)
            } else {
                let d3 = spec_find_char(h, d2 + 1, '.');
                if d3 >= h.len() {
                    (127u8, 0u8, 0u8, 1u8)
                } else {
                    let p1 = h.subrange(0, d1);
                    let p2 = h.subrange(d1 + 1, d2);
                    let p3 = h.subrange(d2 + 1, d3);
                    let p4 = h.subrange(d3 + 1, h.len() as int);
                    if spec_find_char(h, d3 + 1, '.') < h.len() || !(is_octet(p1) && is_octet(p2)
                        && is_octet(p3) && is_octet(p4)) {
                        (127u8, 0u8, 0u8, 1u8)
                    } else {
                        (
                            spec_dec_val(p1) as u8,
                            spec_dec_val(p2) as u8,
                            spec_dec_val(p3) as u8,
                            spec_dec_val(p4) as u8,
                        )
                    }
                }
            }
        }
    }
}

/// Reads a host as [`spec_host_ip`] says.
fn host_ip(h: &str, n: usize) -> (r: (u8, u8, u8, u8))
    requires
        n == h@.len(),
    ensures
        r == spec_host_ip(h@),
{
    if str_eq(h, "localhost") {
        return (127, 0, 0, 1);
    }
    let d1 = find_char(h, n, 0, '.');
    if d1 == n {
        return (127, 0, 0, 1);
    }
    let d2 = find_char(h, n, d1 + 1, '.');
    if d2 == n {
        return (127, 0, 0, 1);
    }
    let d3 = find_char(h, n, d2 + 1, '.');
    if d3 == n {
        return (127, 0, 0, 1);
    }
    let d4 = find_char(h, n, d3 + 1, '.');
    if d4 < n {
        return (127, 0, 0, 1);
    }
    let p1 = h.substring_char(0, d1);
    let p2 = h.substring_char(d1 + 1, d2);
    let p3 = h.substring_char(d2 + 1, d3);
    let p4 = h.substring_char(d3 + 1, n);
    let o1 = parse_octet(p1, d1);
    let o2 = parse_octet(p2, d2 - (d1 + 1));
    let o3 = parse_octet(p3, d3 - (d2 + 1));
    let o4 = parse_octet(p4, n - (d3 + 1));
    match (o1, o2, o3, o4) {
        (Some(a), Some(b), Some(c), Some(d)) => (a, b, c, d),
        _ => (127, 0, 0, 1),
    }
}

/// A valid port: one to five digits with a value below 65536.
pub open spec fn spec_port_val(p: Seq<char>) -> Option<u16> {
    if 1 <= p.len() <= 5 && all_dec_digits(p) && spec_dec_val(p) <= 65535 {
        Some(spec_dec_val(p) as u16)
    } else {
        None
    }
}

/// Parses a port as [`spec_port_val`] says.
fn parse_port(p: &str, n: usize) -> (r: Option<u16>)
    requires
        n == p@.len(),
    ensures
        r == spec_port_val(p@),
{
    if n < 1 || n > 5 {
        return None;
    }
    if !all_dec_digits_exec(p, n, 0) {
        return None;
    }
    let v = dec_value(p, n);
    if v <= 65535 {
        Some(v as u16)
    } else {
        None
    }
}

/// Where the loopback server of a redirect URI binds.
pub open spec fn spec_loopback_addr(u: Seq<char>) -> LoopbackAddr {
    let c = spec_find_char(u, 0, ':');
    if !(c + 2 < u.len() && u[c + 1] == '/' && u[c + 2] == '/') {
        spec_default_addr()
    } else {
        let slash = spec_find_char(u, c + 3, '/');
        let authority = u.subrange(c + 3, slash);
        let colon = spec_find_char(authority, 0, ':');
        if colon == authority.len() {
            let ip = spec_host_ip(authority);
            LoopbackAddr { ip_a: ip.0, ip_b: ip.1, ip_c: ip.2, ip_d: ip.3, port: 54321 }
        } else {
            match spec_port_val(authority.subrange(colon + 1, authority.len() as int)) {
                Some(p) => {
                    let ip = spec_host_ip(authority.subrange(0, colon));
                    LoopbackAddr { ip_a: ip.0, ip_b: ip.1, ip_c: ip.2, ip_d: ip.3, port: p }
                },
                None => spec_default_addr(),
            }
        }
    }
}

/// Reads host and port out of the configured redirect URI, exactly as
/// [`spec_loopback_addr`] says.
pub fn parse_loopback_addr(uri: &str) -> (r: LoopbackAddr)
    ensures
        r == spec_loopback_addr(uri@),
{
    let n = uri.unicode_len();
    let c = find_char(uri, n, 0, ':');
    if !(n - c > 2 && uri.get_char(c + 1) == '/' && uri.get_char(c + 2) == '/') {
        return LoopbackAddr { ip_a: 127, ip_b: 0, ip_c: 0, ip_d: 1, port: 54321 };
    }
    let slash = find_char(uri, n, c + 3, '/');
    let authority = uri.substring_char(c + 3, slash);
    let an = slash - (c + 3);
    assert(an == authority@.len());
    let colon = find_char(authority, an, 0, ':');
    if colon == an {
        let ip = host_ip(authority, an);
        LoopbackAddr { ip_a: ip.0, ip_b: ip.1, ip_c: ip.2, ip_d: ip.3, port: 54321 }
    } else {
        let port_text = authority.substring_char(colon + 1, an);
        match parse_port(port_text, an - (colon + 1)) {
            Some(p) => {
                let host_text = authority.substring_char(0, colon);
                let ip = host_ip(host_text, colon);
                LoopbackAddr { ip_a: ip.0, ip_b: ip.1, ip_c: ip.2, ip_d: ip.3, port: p }
            },
            None => LoopbackAddr { ip_a: 127, ip_b: 0, ip_c: 0, ip_d: 1, port: 54321 },
        }
    }
}

} // verus!
