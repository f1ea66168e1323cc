//! The uniform answer envelope `{ code, message, data }`.
use vstd::prelude::*;

verus! {

/// What `axum::http::StatusCode::from_u16(code)` displays: the code and
/// its canonical reason, e.g. `200 OK`.
pub uninterp spec fn status_text(code: u16) -> Seq<char>;

/// Calls `axum::http::StatusCode::from_u16(code)` and renders it with its
/// `Display` (the number, a space and the canonical reason, or
/// `<unknown status code>`). The text is named. `from_u16` accepts exactly
/// 100..=999.
#[verifier::external_body]
pub(crate) fn status_code_text(code: u16) -> (r: String)
    requires
        100 <= code <= 999,
    ensures
        r@ == status_text(code),
{
    match axum::http::StatusCode::from_u16(code) {
        Ok(s) => s.to_string(),
        Err(_) => String::new(),
    }
}

/// HTTP status of success.
pub const OK: u16 = 200;

/// The envelope of an answer.
pub struct JsonResponse<T> {
    code: u16,
    message: String,
    data: Option<T>,
}

impl<T> JsonResponse<T> {
    /// The status code it carries.
    pub closed spec fn spec_code(&self) -> u16 {
        self.code
    }

    /// The message it carries.
    pub closed spec fn spec_message(&self) -> Seq<char> {
        self.message@
    }

    /// The data it carries.
    pub closed spec fn spec_data(&self) -> Option<T> {
        self.data
    }

    /// An envelope with the given code, message and data.
    pub fn new(code: u16, msg: String, data: Option<T>) -> (r: Self)
        ensures
            r.spec_code() == code,
            r.spec_message() == msg@,
            r.spec_data() == data,
    {
        JsonResponse { code, message: msg, data }
    }

    /// The envelope of a success: code 200, message `200 OK`, the data.
    pub fn success(data: T) -> (r: Self)
        ensures
            r.spec_code() == OK,
            r.spec_message() == status_text(OK),
            r.spec_data() == Some(data),
    {
        Self::new(OK, status_code_text(OK), Some(data))
    }

    /// The status code.
    pub fn code(&self) -> (r: u16)
        ensures
            r == self.spec_code(),
    {
        self.code
    }

    /// The message.
    pub fn message(&self) -> (r: &String)
        ensures
            r@ == self.spec_message(),
    {
        &self.message
    }

    /// The data, taken out of the envelope.
    pub fn into_parts(self) -> (r: (u16, String, Option<T>))
        ensures
            r.0 == self.spec_code(),
            r.1@ == self.spec_message(),
            r.2 == self.spec_data(),
    {
        (self.code, self.message, self.data)
    }
}

} // verus!
