//! The answer envelope `{ code, message, data }` of the basic
//! handlers, where code 0 means success.
use vstd::prelude::*;

verus! {

/// An empty object, the data of an error answer.
pub struct EmptyStruct {}

impl Default for EmptyStruct {
    fn default() -> (r: Self)
        ensures
            r == (EmptyStruct {}),
    {
        EmptyStruct {}
    }
}

/// The envelope of an answer.
pub struct JsonResponse<T> {
    pub code: u16,
    pub message: String,
    pub data: Option<T>,
}

/// The message of a success.
pub open spec fn ok_message() -> Seq<char> {
    "OK"@
}

impl<T> JsonResponse<T> {
    /// An envelope with the given code, message and data.
    pub fn new(code: u16, msg: String, data: Option<T>) -> (r: Self)
        ensures
            r.code == code,
            r.message == msg,
            r.data == data,
    {
        JsonResponse { code, message: msg, data }
    }

    /// The envelope of a success: code 0, message `OK`, the data.
    pub fn success(data: T) -> (r: Self)
        ensures
            r.code == 0,
            r.message@ == ok_message(),
            r.data == Some(data),
    {
        proof { reveal_strlit("OK"); }
        Self::new(0, String::from_str("OK"), Some(data))
    }

    /// The envelope of an error: the code and message, an empty object as
    /// data.
    pub fn error(code: u16, msg: String) -> (r: JsonResponse<EmptyStruct>)
        ensures
            r.code == code,
            r.message == msg,
            r.data == (Some(EmptyStruct {})),
    {
        JsonResponse::new(code, msg, Some(EmptyStruct {}))
    }
}

} // verus!
