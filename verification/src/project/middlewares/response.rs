//! How answers are put into the uniform envelope on their way out.
use vstd::prelude::*;
use crate::project::response::{JsonResponse, status_code_text, status_text, OK};
use crate::text::{str_chars, chars_match};
use crate::project::json::{parse_json, lossy_text, json_parses, json_value, utf8_lossy};

verus! {

/// Whether `p` starts with `prefix`.
pub open spec fn starts_with(p: Seq<char>, prefix: Seq<char>) -> bool {
    p.len() >= prefix.len() && p.subrange(0, prefix.len() as int) == prefix
}

/// Whether answers on `path` go out as they are (the documentation pages).
pub open spec fn spec_skips_envelope(path: Seq<char>) -> bool {
    starts_with(path, "/docs"@) || starts_with(path, "/scalar"@) || starts_with(path, "/openapi.json"@)
}

fn has_prefix(v: &Vec<char>, prefix: &str) -> (r: bool)
    ensures
        r == starts_with(v@, prefix@),
{
    let n = prefix.unicode_len();
    if v.len() < n {
        false
    } else {
        chars_match(v, 0, n, prefix)
    }
}

/// Whether answers on `path` go out without the envelope.
pub fn skips_envelope(path: &str) -> (r: bool)
    ensures
        r == spec_skips_envelope(path@),
{
    let v = str_chars(path);
    has_prefix(&v, "/docs") || has_prefix(&v, "/scalar") || has_prefix(&v, "/openapi.json")
}

/// Whether `status` is a redirection (300 to 399).
pub open spec fn is_redirection(status: u16) -> bool {
    300 <= status < 400
}

/// What becomes of an answer with status `status` and body data `data`:
/// redirections go out as they are (`None`); a success is enveloped as a
/// success; anything else keeps its status, with the status text as
/// message.
pub fn envelope<T>(status: u16, data: T) -> (r: Option<JsonResponse<T>>)
    requires
        100 <= status <= 999,
    ensures
        is_redirection(status) ==> r is None,
        !is_redirection(status) ==> (r matches Some(resp) && {
            &&& resp.spec_code() == status
            &&& resp.spec_message() == status_text(status)
            &&& resp.spec_data() == Some(data)
        }),
{
    if 300 <= status && status < 400 {
        None
    } else if status == OK {
        Some(JsonResponse::success(data))
    } else {
        Some(JsonResponse::new(status, status_code_text(status), Some(data)))
    }
}

/// What an answer body holds: JSON, or text that is not JSON.
pub enum BodyData {
    /// The JSON value the body holds.
    Json(serde_json::Value),
    /// The body's text (invalid UTF-8 sequences replaced), when it is not
    /// JSON.
    Text(String),
}

/// The data of an answer body: the JSON it holds when it reads as JSON,
/// otherwise its text.
pub fn body_data(bytes: &[u8]) -> (r: BodyData)
    ensures
        json_parses(bytes@) <==> r is Json,
        r matches BodyData::Json(v) ==> v == json_value(bytes@),
        r matches BodyData::Text(t) ==> t@ == utf8_lossy(bytes@),
{
    match parse_json(bytes) {
        Some(v) => BodyData::Json(v),
        None => BodyData::Text(lossy_text(bytes)),
    }
}

} // verus!
