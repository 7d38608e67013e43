//! Helpers of the worker-query command: turning an image file into a data
//! URL and reading the worker's answer. Reading the file and sending the
//! request stay in the application.

use vstd::prelude::*;
use vstd::string::{StrSliceExecFns, StringExecFns};
use crate::text::{str_eq, spec_decimal, u64_to_string};

verus! {

/// What base64's standard alphabet with padding writes for these bytes.
pub uninterp spec fn base64_standard(bytes: Seq<u8>) -> Seq<char>;

/// Relies on base64's `STANDARD` engine (standard alphabet, padding): the
/// encoding of the bytes, four characters for every started group of three
/// bytes. The bound keeps the engine's output-size arithmetic in range.
#[verifier::external_body]
fn base64_encode(bytes: &Vec<u8>) -> (r: String)
    requires
        bytes@.len() <= usize::MAX / 4,
    ensures
        r@ == base64_standard(bytes@),
        r@.len() == ((bytes@.len() + 2) / 3) * 4,
{
    base64::Engine::encode(&base64::engine::general_purpose::STANDARD, bytes)
}

/// The MIME type for an image file extension; unknown extensions are taken
/// as PNG.
pub open spec fn spec_mime_for_extension(ext: Seq<char>) -> Seq<char> {
    if ext == "png"@ {
        "image/png"@
    } else if ext == "jpg"@ || ext == "jpeg"@ {
        "image/jpeg"@
    } else if ext == "webp"@ {
        "image/webp"@
    } else if ext == "gif"@ {
        "image/gif"@
    } else {
        "image/png"@
    }
}

/// Picks the MIME type for an image file extension.
pub fn mime_for_extension(ext: &str) -> (r: &'static str)
    ensures
        r@ == spec_mime_for_extension(ext@),
{
    if str_eq(ext, "png") {
        "image/png"
    } else if str_eq(ext, "jpg") || str_eq(ext, "jpeg") {
        "image/jpeg"
    } else if str_eq(ext, "webp") {
        "image/webp"
    } else if str_eq(ext, "gif") {
        "image/gif"
    } else {
        "image/png"
    }
}

/// The last position before `end` that holds `c`, or the length of the
/// sequence when there is none before `end`.
pub open spec fn spec_rfind_char(s: Seq<char>, end: int, c: char) -> int
    decreases end,
{
    if end <= 0 || end > s.len() {
        s.len() as int
    } else if s[end - 1] == c {
        end - 1
    } else {
        spec_rfind_char(s, end - 1, c)
    }
}

fn rfind_char(s: &str, n: usize, end: usize, c: char) -> (r: usize)
    requires
        n == s@.len(),
        end <= n,
    ensures
        r == spec_rfind_char(s@, end as int, c),
        r <= s@.len(),
    decreases end,
{
    if end == 0 {
        n
    } else if s.get_char(end - 1) == c {
        end - 1
    } else {
        rfind_char(s, n, end - 1, c)
    }
}

/// The extension of the file a path names: the part of the final path
/// component after its last `.`, none when the component has no `.` or only
/// a leading one (a hidden file).
pub open spec fn spec_extension_of(path: Seq<char>) -> Option<Seq<char>> {
    let slash = spec_rfind_char(path, path.len() as int, '/');
    let start = if slash == path.len() {
        0int
    } else {
        slash + 1
    };
    let dot = spec_rfind_char(path, path.len() as int, '.');
    if dot == path.len() || dot <= start {
        None
    } else {
        Some(path.subrange(dot + 1, path.len() as int))
    }
}

/// Reads the extension out of a file path, as [`spec_extension_of`] says.
pub fn extension_of(path: &str) -> (r: Option<String>)
    ensures
        match r {
            Some(e) => spec_extension_of(path@) == Some(e@),
            None => spec_extension_of(path@) is None,
        },
{
    let n = path.unicode_len();
    let slash = rfind_char(path, n, n, '/');
    let start: usize = if slash == n {
        0
    } else {
        slash + 1
    };
    let dot = rfind_char(path, n, n, '.');
    if dot == n || dot <= start {
        None
    } else {
        Some(path.substring_char(dot + 1, n).to_owned())
    }
}

/// A data URL for an image: the MIME type and the base64 encoding of the
/// bytes. The length bound keeps the encoder's output arithmetic in range.
pub fn build_image_data_url(mime: &str, bytes: &Vec<u8>) -> (r: String)
    requires
        bytes@.len() <= usize::MAX / 4,
    ensures
        r@ == "data:"@ + mime@ + ";base64,"@ + base64_standard(bytes@),
{
    let mut url = String::from_str("data:");
    url.append(mime);
    url.append(";base64,");
    let encoded = base64_encode(bytes);
    url.append(encoded.as_str());
    proof {
        assert(url@ =~= "data:"@ + mime@ + ";base64,"@ + base64_standard(bytes@));
    }
    url
}

/// Decides the worker-query outcome from the response status and the
/// `ai_text` member of its body: an error status is reported with status
/// and body, a success body without the member cannot be read, otherwise
/// the member is the answer.
pub fn worker_reply_from_fields(status: u16, ai_text: Option<String>, body: &str) -> (r: Result<
    String,
    String,
>)
    ensures
        !(200 <= status < 300) ==> ({
            &&& r matches Err(m)
            &&& m@ == "worker returned status "@ + spec_decimal(status as nat) + ": "@ + body@
        }),
        (200 <= status < 300) && ai_text is None ==> ({
            &&& r matches Err(m)
            &&& m@ == "the worker response holds no ai_text"@
        }),
        (200 <= status < 300) && ai_text is Some ==> ({
            &&& r matches Ok(t)
            &&& Some(t) == ai_text
        }),
{
    if !(status >= 200 && status < 300) {
        let mut m = String::from_str("worker returned status ");
        let digits = u64_to_string(status as u64);
        m.append(digits.as_str());
        m.append(": ");
        m.append(body);
        proof {
            assert(m@ =~= "worker returned status "@ + spec_decimal(status as nat) + ": "@
                + body@);
        }
        return Err(m);
    }
    match ai_text {
        Some(t) => Ok(t),
        None => Err("the worker response holds no ai_text".to_owned()),
    }
}

/// The `ai_text` string member of a worker response body, as serde_json
/// reads it: a function of the body text alone.
pub uninterp spec fn ai_text_of(body: Seq<char>) -> Option<Seq<char>>;

/// Relies on serde_json (`from_str::<Value>`, `Value::get`, `Value::as_str`):
/// the `ai_text` string member of the body, present exactly when the text
/// is a JSON document whose object holds a string under that key.
#[verifier::external_body]
fn extract_ai_text(body: &str) -> (r: Option<String>)
    ensures
        match r {
            Some(t) => ai_text_of(body@) == Some(t@),
            None => ai_text_of(body@) is None,
        },
{
    let v: serde_json::Value = match serde_json::from_str(body) {
        Ok(v) => v,
        Err(_) => return None,
    };
    match v.get("ai_text") {
        Some(member) => member.as_str().map(str::to_owned),
        None => None,
    }
}

/// Interprets the whole worker response: an error status is reported with
/// status and body; within the success range the result is exactly the
/// [`worker_reply_from_fields`] decision on the body's `ai_text` member.
pub fn interpret_worker_response(status: u16, body: &str) -> (r: Result<String, String>)
    ensures
        !(200 <= status < 300) ==> ({
            &&& r matches Err(m)
            &&& m@ == "worker returned status "@ + spec_decimal(status as nat) + ": "@ + body@
        }),
        (200 <= status < 300) ==> ({
            let t = ai_text_of(body@);
            &&& t is None ==> ({
                &&& r matches Err(m)
                &&& m@ == "the worker response holds no ai_text"@
            })
            &&& t matches Some(a) ==> ({
                &&& r matches Ok(x)
                &&& x@ == a
            })
        }),
{
    if !(status >= 200 && status < 300) {
        return worker_reply_from_fields(status, None, body);
    }
    let ai_text = extract_ai_text(body);
    worker_reply_from_fields(status, ai_text, body)
}

} // verus!
