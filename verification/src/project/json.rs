//! JSON values and the calls into `serde_json` that read and make them.
use vstd::prelude::*;

verus! {

#[verifier::external_type_specification]
#[verifier::external_body]
pub struct ExJsonValue(serde_json::Value);

/// Whether `serde_json::from_slice::<Value>` reads `bytes`.
pub uninterp spec fn json_parses(bytes: Seq<u8>) -> bool;

/// The value that `serde_json::from_slice::<Value>` reads from `bytes`,
/// when it reads them.
pub uninterp spec fn json_value(bytes: Seq<u8>) -> serde_json::Value;

/// Calls `serde_json::from_slice::<serde_json::Value>`. Whether it reads
/// the bytes, and the value read, are named: parsing is a function of the
/// bytes alone.
#[verifier::external_body]
pub(crate) fn parse_json(bytes: &[u8]) -> (r: Option<serde_json::Value>)
    ensures
        r is Some == json_parses(bytes@),
        r matches Some(v) ==> v == json_value(bytes@),
{
    match serde_json::from_slice::<serde_json::Value>(bytes) {
        Ok(v) => Some(v),
        Err(_) => None,
    }
}

/// What `String::from_utf8_lossy` reads from `bytes`.
pub uninterp spec fn utf8_lossy(bytes: Seq<u8>) -> Seq<char>;

/// Calls `String::from_utf8_lossy` (invalid sequences become U+FFFD).
#[verifier::external_body]
pub(crate) fn lossy_text(bytes: &[u8]) -> (r: String)
    ensures
        r@ == utf8_lossy(bytes@),
{
    String::from_utf8_lossy(bytes).to_string()
}

} // verus!
