//! The API description, with every answer body described inside the
//! uniform envelope `{ code, message, data }`.
use vstd::prelude::*;

verus! {

/// The service's API description: title "Web Demo API", version 1.0.0,
/// served under `/api/v1`, with bearer-token security.
pub struct ApiDoc;

/// The body description of one answer content: the envelope around the
/// content's own schema, or around `null` when the answer has no body.
pub enum Envelope<S> {
    /// `{ code: integer, message: string, data: <schema> }`
    Around(S),
    /// `{ code: integer, message: string, data: null }`
    AroundNull,
}

/// The media type given to an answer that had no content.
pub open spec fn json_media_type() -> Seq<char> {
    "application/json"@
}

/// The contents of one answer once every body is described inside the
/// envelope: an answer without content gets one JSON content enveloping
/// `null`; every other content keeps its media type and has its schema (or
/// `null` when it has none) enveloped.
pub open spec fn wrapped_contents<S>(contents: Seq<(Seq<char>, Option<S>)>) -> Seq<(Seq<char>, Envelope<S>)> {
    if contents.len() == 0 {
        seq![(json_media_type(), Envelope::AroundNull)]
    } else {
        contents.map_values(|c: (Seq<char>, Option<S>)| (c.0, match c.1 {
            Some(s) => Envelope::Around(s),
            None => Envelope::AroundNull,
        }))
    }
}

/// The plain values of a list of contents.
pub open spec fn contents_view<S>(contents: Seq<(String, Option<S>)>) -> Seq<(Seq<char>, Option<S>)> {
    contents.map_values(|c: (String, Option<S>)| (c.0@, c.1))
}

/// The plain values of a list of enveloped contents.
pub open spec fn wrapped_view<S>(contents: Seq<(String, Envelope<S>)>) -> Seq<(Seq<char>, Envelope<S>)> {
    contents.map_values(|c: (String, Envelope<S>)| (c.0@, c.1))
}

/// Describes the bodies of one answer inside the envelope.
pub fn wrap_response_contents<S>(contents: Vec<(String, Option<S>)>) -> (r: Vec<(String, Envelope<S>)>)
    ensures
        wrapped_view(r@) == wrapped_contents(contents_view(contents@)),
{
    let mut out: Vec<(String, Envelope<S>)> = Vec::new();
    if contents.len() == 0 {
        out.push((String::from_str("application/json"), Envelope::AroundNull));
        assert(wrapped_view(out@) =~= wrapped_contents(contents_view(contents@)));
        return out;
    }
    let ghost orig = contents@;
    let mut rest = contents;
    let n = rest.len();
    // Take the contents in order from the front.
    let mut rev: Vec<(String, Option<S>)> = Vec::new();
    while rest.len() > 0
        invariant
            rev@.len() + rest@.len() == n,
            n == orig.len(),
            forall|k: int| 0 <= k < rev@.len() ==> rev@[k] == orig[n - 1 - k],
            rest@ == orig.subrange(0, rest@.len() as int),
        decreases rest@.len(),
    {
        let c = rest.pop().unwrap();
        rev.push(c);
    }
    while rev.len() > 0
        invariant
            out@.len() + rev@.len() == n,
            n == orig.len(),
            forall|k: int| 0 <= k < rev@.len() ==> rev@[k] == orig[n - 1 - k],
            wrapped_view(out@) =~= wrapped_contents(contents_view(orig)).subrange(0, out@.len() as int),
            n > 0,
        decreases rev@.len(),
    {
        let ghost k = out@.len();
        let (t, s) = rev.pop().unwrap();
        let e = match s {
            Some(s) => Envelope::Around(s),
            None => Envelope::AroundNull,
        };
        out.push((t, e));
        assert(wrapped_view(out@) =~= wrapped_contents(contents_view(orig)).subrange(0, out@.len() as int));
    }
    assert(wrapped_view(out@) =~= wrapped_contents(contents_view(orig)));
    out
}

} // verus!
