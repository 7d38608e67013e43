//! Character and string helpers shared by the parsing modules.
//!
//! Everything here works at the level of characters, so the specifications
//! speak directly about the `Seq<char>` view of a string.

use vstd::prelude::*;
use vstd::string::StrSliceExecFns;

verus! {

/// The characters of Unicode's White_Space property, the set that
/// `char::is_whitespace` accepts.
pub open spec fn is_ws(c: char) -> bool {
    let u = c as u32;
    u == 0x09 || u == 0x0a || u == 0x0b || u == 0x0c || u == 0x0d || u == 0x20 || u == 0x85
        || u == 0xa0 || u == 0x1680 || (0x2000 <= u && u <= 0x200a) || u == 0x2028 || u == 0x2029
        || u == 0x202f || u == 0x205f || u == 0x3000
}

/// Whether `c` is a whitespace character.
pub fn is_ws_char(c: char) -> (r: bool)
    ensures
        r == is_ws(c),
{
    let u = c as u32;
    u == 0x09 || u == 0x0a || u == 0x0b || u == 0x0c || u == 0x0d || u == 0x20 || u == 0x85
        || u == 0xa0 || u == 0x1680 || (0x2000 <= u && u <= 0x200a) || u == 0x2028 || u == 0x2029
        || u == 0x202f || u == 0x205f || u == 0x3000
}

/// Compares the characters of `a` and `b` from position `i` on.
fn str_eq_from(a: &str, b: &str, n: usize, i: usize) -> (r: bool)
    requires
        n == a@.len(),
        a@.len() == b@.len(),
        i <= n,
    ensures
        r == (forall|k: int| i <= k < a@.len() ==> a@[k] == b@[k]),
    decreases n - i,
{
    if i == n {
        true
    } else if a.get_char(i) == b.get_char(i) {
        str_eq_from(a, b, n, i + 1)
    } else {
        false
    }
}

/// Whether two strings hold the same characters.
pub fn str_eq(a: &str, b: &str) -> (r: bool)
    ensures
        r == (a@ == b@),
{
    let n = a.unicode_len();
    if n != b.unicode_len() {
        return false;
    }
    let r = str_eq_from(a, b, n, 0);
    proof {
        if r {
            assert(a@ =~= b@);
        }
    }
    r
}

/// Whether `p` is a prefix of `s`.
pub open spec fn spec_starts_with(s: Seq<char>, p: Seq<char>) -> bool {
    p.len() <= s.len() && s.subrange(0, p.len() as int) == p
}

/// Compares the characters of `p` against `s` from position `i` on.
fn prefix_eq_from(s: &str, p: &str, np: usize, i: usize) -> (r: bool)
    requires
        np == p@.len(),
        np <= s@.len(),
        i <= np,
    ensures
        r == (forall|k: int| i <= k < p@.len() ==> s@[k] == p@[k]),
    decreases np - i,
{
    if i == np {
        true
    } else if s.get_char(i) == p.get_char(i) {
        prefix_eq_from(s, p, np, i + 1)
    } else {
        false
    }
}

/// Whether the string `s` starts with `p`.
pub fn starts_with_str(s: &str, p: &str) -> (r: bool)
    ensures
        r == spec_starts_with(s@, p@),
{
    let np = p.unicode_len();
    if np > s.unicode_len() {
        return false;
    }
    let r = prefix_eq_from(s, p, np, 0);
    proof {
        if r {
            assert(s@.subrange(0, p@.len() as int) =~= p@);
        } else {
            assert(s@.subrange(0, p@.len() as int) != p@);
        }
    }
    r
}

/// The first position at or after `from` where `c` occurs; the length of the
/// sequence when it does not occur.
pub open spec fn spec_find_char(s: Seq<char>, from: int, c: char) -> int
    decreases s.len() - from,
{
    if from < 0 || from >= s.len() {
        s.len() as int
    } else if s[from] == c {
        from
    } else {
        spec_find_char(s, from + 1, c)
    }
}

pub proof fn lemma_find_char_bounds(s: Seq<char>, from: int, c: char)
    requires
        0 <= from <= s.len(),
    ensures
        from <= spec_find_char(s, from, c) <= s.len(),
    decreases s.len() - from,
{
    if from < s.len() && s[from] != c {
        lemma_find_char_bounds(s, from + 1, c);
    }
}

/// Finds the first occurrence of `c` in `s` at or after position `from`.
pub fn find_char(s: &str, n: usize, from: usize, c: char) -> (r: usize)
    requires
        n == s@.len(),
        from <= n,
    ensures
        r == spec_find_char(s@, from as int, c),
        from <= r <= s@.len(),
        r < s@.len() ==> s@[r as int] == c,
    decreases n - from,
{
    if from == n {
        n
    } else if s.get_char(from) == c {
        from
    } else {
        find_char(s, n, from + 1, c)
    }
}

/// The first position at or after `from` that holds a non-whitespace
/// character; the length of the sequence when there is none.
pub open spec fn spec_skip_ws(s: Seq<char>, from: int) -> int
    decreases s.len() - from,
{
    if from < 0 || from >= s.len() {
        s.len() as int
    } else if is_ws(s[from]) {
        spec_skip_ws(s, from + 1)
    } else {
        from
    }
}

/// Finds the first non-whitespace character at or after `from`.
pub fn skip_ws(s: &str, n: usize, from: usize) -> (r: usize)
    requires
        n == s@.len(),
        from <= n,
    ensures
        r == spec_skip_ws(s@, from as int),
        from <= r <= s@.len(),
    decreases n - from,
{
    if from == n {
        n
    } else if is_ws_char(s.get_char(from)) {
        skip_ws(s, n, from + 1)
    } else {
        from
    }
}

/// The end (exclusive) of the sequence once trailing whitespace before
/// position `end` is dropped.
pub open spec fn spec_rskip_ws(s: Seq<char>, end: int) -> int
    decreases end,
{
    if end <= 0 || end > s.len() {
        0
    } else if is_ws(s[end - 1]) {
        spec_rskip_ws(s, end - 1)
    } else {
        end
    }
}

/// Finds the end of `s` before `end` once trailing whitespace is dropped.
pub fn rskip_ws(s: &str, end: usize) -> (r: usize)
    requires
        end <= s@.len(),
    ensures
        r == spec_rskip_ws(s@, end as int),
        r <= end,
    decreases end,
{
    if end == 0 {
        0
    } else if is_ws_char(s.get_char(end - 1)) {
        rskip_ws(s, end - 1)
    } else {
        end
    }
}

/// `s` with leading and trailing whitespace removed, as `str::trim` does.
pub open spec fn spec_trim(s: Seq<char>) -> Seq<char> {
    let a = spec_skip_ws(s, 0);
    let b = spec_rskip_ws(s, s.len() as int);
    if a >= b {
        Seq::empty()
    } else {
        s.subrange(a, b)
    }
}

/// `s` with trailing whitespace removed, as `str::trim_end` does.
pub open spec fn spec_trim_end(s: Seq<char>) -> Seq<char> {
    s.subrange(0, spec_rskip_ws(s, s.len() as int))
}

/// Relies on `String::push`: appends one character to the string.
#[verifier::external_body]
fn push_char(s: &mut String, c: char)
    ensures
        final(s)@ == old(s)@.push(c),
{
    s.push(c);
}

/// The decimal digit character for `d`.
pub open spec fn dec_digit(d: nat) -> char {
    if d == 0 {
        '0'
    } else if d == 1 {
        '1'
    } else if d == 2 {
        '2'
    } else if d == 3 {
        '3'
    } else if d == 4 {
        '4'
    } else if d == 5 {
        '5'
    } else if d == 6 {
        '6'
    } else if d == 7 {
        '7'
    } else if d == 8 {
        '8'
    } else {
        '9'
    }
}

/// The decimal notation of `n`, most significant digit first.
pub open spec fn spec_decimal(n: nat) -> Seq<char>
    decreases n,
{
    if n < 10 {
        seq![dec_digit(n)]
    } else {
        spec_decimal(n / 10).push(dec_digit(n % 10))
    }
}

fn digit_char(d: u64) -> (r: char)
    requires
        d < 10,
    ensures
        r == dec_digit(d as nat),
{
    if d == 0 {
        '0'
    } else if d == 1 {
        '1'
    } else if d == 2 {
        '2'
    } else if d == 3 {
        '3'
    } else if d == 4 {
        '4'
    } else if d == 5 {
        '5'
    } else if d == 6 {
        '6'
    } else if d == 7 {
        '7'
    } else if d == 8 {
        '8'
    } else {
        '9'
    }
}

/// Writes `n` in decimal notation.
pub fn u64_to_string(n: u64) -> (r: String)
    ensures
        r@ == spec_decimal(n as nat),
    decreases n,
{
    if n < 10 {
        let mut s = String::new();
        push_char(&mut s, digit_char(n));
        proof {
            assert(s@ =~= spec_decimal(n as nat));
        }
        s
    } else {
        let mut s = u64_to_string(n / 10);
        push_char(&mut s, digit_char(n % 10));
        s
    }
}

} // verus!
