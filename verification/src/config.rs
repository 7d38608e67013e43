//! Parsing of the embedded environment configuration.
//!
//! The input is the text of a `.env`-style file: one `KEY=value` pair per
//! line, blank lines and `#` comments skipped, an unquoted `#` ending a
//! value, surrounding whitespace trimmed, and one pair of surrounding
//! double or single quotes stripped after trimming. Four keys are required
//! and must be non-empty: `GITHUB_CLIENT_ID`, `GITHUB_CLIENT_SECRET`,
//! `WORKER_API_URL`, `WORKER_API_KEY`.
//!
//! The whole grammar is written down as spec functions over the character
//! sequence, and [`parse_env_content`] is proved to return exactly what
//! they describe, errors included.

use vstd::prelude::*;
use vstd::string::{StrSliceExecFns, StringExecFns};
use crate::text::{
    find_char, is_ws, lemma_find_char_bounds, rskip_ws, skip_ws, spec_decimal, spec_find_char,
    spec_rskip_ws, spec_trim, spec_trim_end, str_eq, u64_to_string,
};

verus! {

/// The configuration the flow needs, as parsed from the embedded file.
#[derive(Debug, Clone, PartialEq)]
pub struct EnvConfig {
    pub github_client_id: String,
    pub github_client_secret: String,
    pub worker_api_url: String,
    pub worker_api_key: String,
}

/// Why the configuration text was rejected: a required key that is absent,
/// a required key whose value is empty, or a line (number and content) that
/// holds no `=`.
#[derive(Debug, PartialEq)]
pub enum ConfigParseError {
    MissingKey(String),
    EmptyValue(String),
    MalformedLine(usize, String),
}

impl ConfigParseError {
    /// The error as one human-readable line.
    pub fn message(&self) -> (r: String)
        ensures
            match self {
                ConfigParseError::MissingKey(k) => r@ == "missing required key: "@ + k@,
                ConfigParseError::EmptyValue(k) => r@ == "the value of key "@ + k@
                    + " must not be empty"@,
                ConfigParseError::MalformedLine(n, l) => r@ == "cannot parse line "@ + spec_decimal(
                    *n as nat,
                ) + " (missing '='?): "@ + l@,
            },
    {
        match self {
            ConfigParseError::MissingKey(k) => {
                let mut m = String::from_str("missing required key: ");
                m.append(k.as_str());
                m
            },
            ConfigParseError::EmptyValue(k) => {
                let mut m = String::from_str("the value of key ");
                m.append(k.as_str());
                m.append(" must not be empty");
                proof {
                    assert(m@ =~= "the value of key "@ + k@ + " must not be empty"@);
                }
                m
            },
            ConfigParseError::MalformedLine(n, l) => {
                let mut m = String::from_str("cannot parse line ");
                let digits = u64_to_string(*n as u64);
                m.append(digits.as_str());
                m.append(" (missing '='?): ");
                m.append(l.as_str());
                proof {
                    assert(m@ =~= "cannot parse line "@ + spec_decimal(*n as nat)
                        + " (missing '='?): "@ + l@);
                }
                m
            },
        }
    }
}

/// The line content as `str::lines` yields it: one trailing carriage
/// return, if any, is dropped.
pub open spec fn spec_strip_cr(l: Seq<char>) -> Seq<char> {
    if l.len() > 0 && l.last() == '\r' {
        l.drop_last()
    } else {
        l
    }
}

/// A value with an inline comment cut off: everything from the first `#`
/// on is dropped, with the whitespace before it.
pub open spec fn spec_strip_comment(v: Seq<char>) -> Seq<char> {
    let j = spec_find_char(v, 0, '#');
    if j < v.len() {
        spec_trim_end(v.subrange(0, j))
    } else {
        v
    }
}

/// A trimmed value with one pair of surrounding quotes stripped.
pub open spec fn spec_strip_quotes(v: Seq<char>) -> Seq<char> {
    if v.len() >= 2 && v[0] == '"' && v.last() == '"' {
        v.subrange(1, v.len() - 1)
    } else if v.len() >= 2 && v[0] == '\'' && v.last() == '\'' {
        v.subrange(1, v.len() - 1)
    } else {
        v
    }
}

/// What a raw value (the text after the first `=`) finally means.
pub open spec fn spec_value(v: Seq<char>) -> Seq<char> {
    spec_strip_quotes(spec_trim(spec_strip_comment(v)))
}

/// What one line contributes: nothing, one key/value pair, or a format
/// error.
pub enum LineStep {
    Skip,
    Insert { key: Seq<char>, value: Seq<char> },
    Malformed,
}

/// Reads one line (already stripped of its line ending). Blank lines,
/// comment lines and lines whose key trims to nothing are skipped; a
/// non-blank line without `=` is malformed.
pub open spec fn spec_line_step(line: Seq<char>) -> LineStep {
    let t = spec_trim(line);
    if t.len() == 0 || t[0] == '#' {
        LineStep::Skip
    } else {
        let eq = spec_find_char(t, 0, '=');
        if eq == t.len() {
            LineStep::Malformed
        } else {
            let key = spec_trim(t.subrange(0, eq));
            if key.len() == 0 {
                LineStep::Skip
            } else {
                LineStep::Insert { key, value: spec_value(t.subrange(eq + 1, t.len() as int)) }
            }
        }
    }
}

/// The variables after one line: a later pair for a key overrides an
/// earlier one.
pub open spec fn apply_line(
    env: Map<Seq<char>, Seq<char>>,
    line: Seq<char>,
) -> Map<Seq<char>, Seq<char>> {
    match spec_line_step(line) {
        LineStep::Insert { key, value } => env.insert(key, value),
        _ => env,
    }
}

/// The variables collected by a whole scan, or the first malformed line
/// (its one-based number and its content).
pub enum ScanResult {
    Done(Map<Seq<char>, Seq<char>>),
    Malformed(nat, Seq<char>),
}

/// Scans the text line by line from character position `pos`, `idx` lines
/// already behind, `env` the variables collected so far.
pub open spec fn spec_scan(
    s: Seq<char>,
    pos: int,
    idx: nat,
    env: Map<Seq<char>, Seq<char>>,
) -> ScanResult
    decreases s.len() - pos,
    via spec_scan_dec
{
    if pos < 0 || pos >= s.len() {
        ScanResult::Done(env)
    } else {
        let end = spec_find_char(s, pos, '\n');
        let line = spec_strip_cr(s.subrange(pos, end));
        if spec_line_step(line) is Malformed {
            ScanResult::Malformed(idx + 1, line)
        } else {
            let env2 = apply_line(env, line);
            if end >= s.len() {
                ScanResult::Done(env2)
            } else {
                spec_scan(s, end + 1, idx + 1, env2)
            }
        }
    }
}

#[via_fn]
proof fn spec_scan_dec(s: Seq<char>, pos: int, idx: nat, env: Map<Seq<char>, Seq<char>>) {
    if 0 <= pos < s.len() {
        lemma_find_char_bounds(s, pos, '\n');
    }
}

/// What parsing the whole text yields.
pub enum ParseOutcome {
    Parsed { id: Seq<char>, secret: Seq<char>, url: Seq<char>, key: Seq<char> },
    MissingKey(Seq<char>),
    EmptyValue(Seq<char>),
    Malformed(nat, Seq<char>),
}

/// Pulls the four required values out of the collected variables, checking
/// them in a fixed order: a key must be present, and its value non-empty.
pub open spec fn spec_extract(env: Map<Seq<char>, Seq<char>>) -> ParseOutcome {
    if !env.contains_key("GITHUB_CLIENT_ID"@) {
        ParseOutcome::MissingKey("GITHUB_CLIENT_ID"@)
    } else if env["GITHUB_CLIENT_ID"@].len() == 0 {
        ParseOutcome::EmptyValue("GITHUB_CLIENT_ID"@)
    } else if !env.contains_key("GITHUB_CLIENT_SECRET"@) {
        ParseOutcome::MissingKey("GITHUB_CLIENT_SECRET"@)
    } else if env["GITHUB_CLIENT_SECRET"@].len() == 0 {
        ParseOutcome::EmptyValue("GITHUB_CLIENT_SECRET"@)
    } else if !env.contains_key("WORKER_API_URL"@) {
        ParseOutcome::MissingKey("WORKER_API_URL"@)
    } else if env["WORKER_API_URL"@].len() == 0 {
        ParseOutcome::EmptyValue("WORKER_API_URL"@)
    } else if !env.contains_key("WORKER_API_KEY"@) {
        ParseOutcome::MissingKey("WORKER_API_KEY"@)
    } else if env["WORKER_API_KEY"@].len() == 0 {
        ParseOutcome::EmptyValue("WORKER_API_KEY"@)
    } else {
        ParseOutcome::Parsed {
            id: env["GITHUB_CLIENT_ID"@],
            secret: env["GITHUB_CLIENT_SECRET"@],
            url: env["WORKER_API_URL"@],
            key: env["WORKER_API_KEY"@],
        }
    }
}

/// The meaning of the whole configuration text.
pub open spec fn spec_parse_env(s: Seq<char>) -> ParseOutcome {
    match spec_scan(s, 0, 0, Map::empty()) {
        ScanResult::Malformed(n, l) => ParseOutcome::Malformed(n, l),
        ScanResult::Done(env) => spec_extract(env),
    }
}

/// How an executable parse result realizes a parse outcome.
pub open spec fn parse_matches(r: Result<EnvConfig, ConfigParseError>, o: ParseOutcome) -> bool {
    match o {
        ParseOutcome::Parsed { id, secret, url, key } => {
            &&& r matches Ok(c)
            &&& c.github_client_id@ == id
            &&& c.github_client_secret@ == secret
            &&& c.worker_api_url@ == url
            &&& c.worker_api_key@ == key
        },
        ParseOutcome::MissingKey(k) => r matches Err(ConfigParseError::MissingKey(s)) && s@ == k,
        ParseOutcome::EmptyValue(k) => r matches Err(ConfigParseError::EmptyValue(s)) && s@ == k,
        ParseOutcome::Malformed(n, l) => {
            &&& r matches Err(ConfigParseError::MalformedLine(n2, s))
            &&& n2 as nat == n
            &&& s@ == l
        },
    }
}

/// The four slots the scanner fills while the ghost scan collects every
/// variable.
struct Slots {
    id: Option<String>,
    secret: Option<String>,
    url: Option<String>,
    key: Option<String>,
}

spec fn slot_matches(slot: Option<String>, env: Map<Seq<char>, Seq<char>>, k: Seq<char>) -> bool {
    match slot {
        Some(s) => env.contains_key(k) && s@ == env[k],
        None => !env.contains_key(k),
    }
}

spec fn slots_match(sl: Slots, env: Map<Seq<char>, Seq<char>>) -> bool {
    &&& slot_matches(sl.id, env, "GITHUB_CLIENT_ID"@)
    &&& slot_matches(sl.secret, env, "GITHUB_CLIENT_SECRET"@)
    &&& slot_matches(sl.url, env, "WORKER_API_URL"@)
    &&& slot_matches(sl.key, env, "WORKER_API_KEY"@)
}

proof fn lemma_required_keys_distinct()
    ensures
        "GITHUB_CLIENT_ID"@ != "GITHUB_CLIENT_SECRET"@,
        "GITHUB_CLIENT_ID"@ != "WORKER_API_URL"@,
        "GITHUB_CLIENT_ID"@ != "WORKER_API_KEY"@,
        "GITHUB_CLIENT_SECRET"@ != "WORKER_API_URL"@,
        "GITHUB_CLIENT_SECRET"@ != "WORKER_API_KEY"@,
        "WORKER_API_URL"@ != "WORKER_API_KEY"@,
{
    reveal_strlit("GITHUB_CLIENT_ID");
    reveal_strlit("GITHUB_CLIENT_SECRET");
    reveal_strlit("WORKER_API_URL");
    reveal_strlit("WORKER_API_KEY");
    assert("GITHUB_CLIENT_ID"@.len() == 16);
    assert("GITHUB_CLIENT_SECRET"@.len() == 20);
    assert("WORKER_API_URL"@.len() == 14);
    assert("WORKER_API_KEY"@.len() == 14);
    assert("WORKER_API_URL"@[11] == 'U');
    assert("WORKER_API_KEY"@[11] == 'K');
}

/// Reads one line and updates the slots as [`spec_line_step`] says.
fn process_line(line: &str, idx: usize, slots: &mut Slots, Ghost(env): Ghost<Map<Seq<char>, Seq<char>>>) -> (r: Result<
    (),
    ConfigParseError,
>)
    requires
        slots_match(*old(slots), env),
        idx < usize::MAX,
    ensures
        r is Err <==> spec_line_step(line@) is Malformed,
        r matches Err(e) ==> e matches ConfigParseError::MalformedLine(n2, l2) && n2 == idx + 1
            && l2@ == line@,
        r is Ok ==> slots_match(*final(slots), apply_line(env, line@)),
{
    let n = line.unicode_len();
    let a = skip_ws(line, n, 0);
    let b = rskip_ws(line, n);
    if a >= b {
        assert(spec_trim(line@).len() == 0);
        return Ok(());
    }
    let t = line.substring_char(a, b);
    assert(t@ == spec_trim(line@));
    let tn = b - a;
    assert(tn == t@.len());
    if t.get_char(0) == '#' {
        return Ok(());
    }
    let eq = find_char(t, tn, 0, '=');
    if eq == tn {
        assert(spec_line_step(line@) is Malformed);
        return Err(ConfigParseError::MalformedLine(idx + 1, line.to_owned()));
    }
    // The key: the text before the `=`, trimmed.
    let key_raw = t.substring_char(0, eq);
    let ka = skip_ws(key_raw, eq, 0);
    let kb = rskip_ws(key_raw, eq);
    if ka >= kb {
        assert(spec_trim(key_raw@).len() == 0);
        return Ok(());
    }
    let key = key_raw.substring_char(ka, kb);
    assert(key@ == spec_trim(t@.subrange(0, eq as int)));
    // The value: the text after the `=`, its comment cut, trimmed, unquoted.
    let v_raw = t.substring_char(eq + 1, tn);
    let vn = tn - (eq + 1);
    assert(vn == v_raw@.len());
    let j = find_char(v_raw, vn, 0, '#');
    let v1: &str = if j < vn {
        let e1 = rskip_ws(v_raw, j);
        proof {
            lemma_rskip_ws_prefix(v_raw@, j as int, j as int);
            assert(v_raw@.subrange(0, j as int).subrange(0, e1 as int) =~= v_raw@.subrange(
                0,
                e1 as int,
            ));
        }
        v_raw.substring_char(0, e1)
    } else {
        v_raw
    };
    assert(v1@ == spec_strip_comment(v_raw@));
    let v1n = v1.unicode_len();
    let va = skip_ws(v1, v1n, 0);
    let vb = rskip_ws(v1, v1n);
    let v2: &str = if va >= vb {
        v1.substring_char(0, 0)
    } else {
        v1.substring_char(va, vb)
    };
    proof {
        if va >= vb {
            assert(v2@ =~= spec_trim(v1@));
        }
        assert(v2@ == spec_trim(v1@));
    }
    let v2n: usize = if va >= vb { 0 } else { vb - va };
    assert(v2n == v2@.len());
    let value: &str = if v2n >= 2 && v2.get_char(0) == '"' && v2.get_char(v2n - 1) == '"' {
        v2.substring_char(1, v2n - 1)
    } else if v2n >= 2 && v2.get_char(0) == '\'' && v2.get_char(v2n - 1) == '\'' {
        v2.substring_char(1, v2n - 1)
    } else {
        v2
    };
    assert(value@ == spec_strip_quotes(v2@));
    assert(value@ == spec_value(t@.subrange(eq + 1, tn as int)));
    let ghost env2 = apply_line(env, line@);
    proof {
        assert(spec_line_step(line@) == (LineStep::Insert { key: key@, value: value@ }));
        assert(env2 == env.insert(key@, value@));
        lemma_required_keys_distinct();
    }
    let val_string = value.to_owned();
    if str_eq(key, "GITHUB_CLIENT_ID") {
        slots.id = Some(val_string);
    } else if str_eq(key, "GITHUB_CLIENT_SECRET") {
        slots.secret = Some(val_string);
    } else if str_eq(key, "WORKER_API_URL") {
        slots.url = Some(val_string);
    } else if str_eq(key, "WORKER_API_KEY") {
        slots.key = Some(val_string);
    }
    Ok(())
}

/// `spec_rskip_ws` looks only below `end`, so a prefix that reaches `end`
/// gives the same answer as the whole sequence.
proof fn lemma_rskip_ws_prefix(s: Seq<char>, k: int, end: int)
    requires
        0 <= end <= k <= s.len(),
    ensures
        spec_rskip_ws(s.subrange(0, k), end) == spec_rskip_ws(s, end),
    decreases end,
{
    if end > 0 {
        assert(s.subrange(0, k)[end - 1] == s[end - 1]);
        if is_ws(s[end - 1]) {
            lemma_rskip_ws_prefix(s, k, end - 1);
        }
    }
}

/// Scans the text from character position `pos` on, filling the slots.
fn scan_lines(
    s: &str,
    n: usize,
    pos: usize,
    idx: usize,
    slots: &mut Slots,
    Ghost(env): Ghost<Map<Seq<char>, Seq<char>>>,
) -> (r: Result<(), ConfigParseError>)
    requires
        n == s@.len(),
        pos <= n,
        idx <= pos,
        slots_match(*old(slots), env),
    ensures
        r matches Ok(()) ==> spec_scan(s@, pos as int, idx as nat, env) matches ScanResult::Done(
            env2,
        ) && slots_match(*final(slots), env2),
        r matches Err(e) ==> {
            &&& spec_scan(s@, pos as int, idx as nat, env) matches ScanResult::Malformed(ln, lc)
            &&& e matches ConfigParseError::MalformedLine(n2, l2)
            &&& n2 as nat == ln
            &&& l2@ == lc
        },
    decreases n - pos,
{
    if pos >= n {
        return Ok(());
    }
    let end = find_char(s, n, pos, '\n');
    let raw = s.substring_char(pos, end);
    let rn = end - pos;
    assert(rn == raw@.len());
    let line: &str = if rn > 0 && raw.get_char(rn - 1) == '\r' {
        raw.substring_char(0, rn - 1)
    } else {
        raw
    };
    proof {
        if rn > 0 && raw@[rn - 1] == '\r' {
            assert(line@ =~= spec_strip_cr(raw@));
        }
        assert(line@ == spec_strip_cr(s@.subrange(pos as int, spec_find_char(s@, pos as int, '\n'))));
    }
    match process_line(line, idx, slots, Ghost(env)) {
        Err(e) => Err(e),
        Ok(()) => {
            let ghost env2 = apply_line(env, line@);
            if end >= n {
                Ok(())
            } else {
                scan_lines(s, n, end + 1, idx + 1, slots, Ghost(env2))
            }
        },
    }
}

/// Parses the configuration text and returns exactly what the grammar in
/// [`spec_parse_env`] assigns to it: the four required values, or the first
/// error in scanning order — a malformed line, then a missing required key,
/// then an empty required value, the keys checked in a fixed order.
pub fn parse_env_content(env_content: &str) -> (r: Result<EnvConfig, ConfigParseError>)
    ensures
        parse_matches(r, spec_parse_env(env_content@)),
{
    let n = env_content.unicode_len();
    let mut slots = Slots { id: None, secret: None, url: None, key: None };
    match scan_lines(env_content, n, 0, 0, &mut slots, Ghost(Map::empty())) {
        Err(e) => Err(e),
        Ok(()) => {
            let Slots { id, secret, url, key } = slots;
            let id = match id {
                Some(v) => v,
                None => {
                    return Err(ConfigParseError::MissingKey("GITHUB_CLIENT_ID".to_owned()));
                },
            };
            if id.as_str().is_empty() {
                return Err(ConfigParseError::EmptyValue("GITHUB_CLIENT_ID".to_owned()));
            }
            let secret = match secret {
                Some(v) => v,
                None => {
                    return Err(ConfigParseError::MissingKey("GITHUB_CLIENT_SECRET".to_owned()));
                },
            };
            if secret.as_str().is_empty() {
                return Err(ConfigParseError::EmptyValue("GITHUB_CLIENT_SECRET".to_owned()));
            }
            let url = match url {
                Some(v) => v,
                None => {
                    return Err(ConfigParseError::MissingKey("WORKER_API_URL".to_owned()));
                },
            };
            if url.as_str().is_empty() {
                return Err(ConfigParseError::EmptyValue("WORKER_API_URL".to_owned()));
            }
            let key = match key {
                Some(v) => v,
                None => {
                    return Err(ConfigParseError::MissingKey("WORKER_API_KEY".to_owned()));
                },
            };
            if key.as_str().is_empty() {
                return Err(ConfigParseError::EmptyValue("WORKER_API_KEY".to_owned()));
            }
            Ok(EnvConfig {
                github_client_id: id,
                github_client_secret: secret,
                worker_api_url: url,
                worker_api_key: key,
            })
        },
    }
}

/// The provider client id of this configuration.
pub fn get_github_client_id(cfg: &EnvConfig) -> (r: &str)
    ensures
        r@ == cfg.github_client_id@,
{
    cfg.github_client_id.as_str()
}

/// The provider client secret of this configuration.
pub fn get_github_client_secret(cfg: &EnvConfig) -> (r: &str)
    ensures
        r@ == cfg.github_client_secret@,
{
    cfg.github_client_secret.as_str()
}

/// The backend base URL of this configuration.
pub fn get_worker_api_url(cfg: &EnvConfig) -> (r: &str)
    ensures
        r@ == cfg.worker_api_url@,
{
    cfg.worker_api_url.as_str()
}

/// The backend API key of this configuration.
pub fn get_worker_api_key(cfg: &EnvConfig) -> (r: &str)
    ensures
        r@ == cfg.worker_api_key@,
{
    cfg.worker_api_key.as_str()
}

} // verus!
