//! What the request extractors decide: path ids, and inputs that are
//! checked against their rules once read.
use vstd::prelude::*;
use super::error::{AppError, is_api, BAD_REQUEST};
use super::validation::{Validate, errors_view};

verus! {

/// A resource id taken from the path (never negative).
pub struct ResourceId(pub u32);

/// The message of an id beyond the range of the database keys.
pub open spec fn id_out_of_range_message() -> Seq<char> {
    "ID 超出范围"@
}

/// The message of a path segment that is not an id.
pub open spec fn invalid_id_message() -> Seq<char> {
    "无效的ID"@
}

/// The message of a body that could not be read.
pub open spec fn unreadable_body_message() -> Seq<char> {
    "请求参数格式错误"@
}

impl ResourceId {
    /// The id as a database key: itself when it fits in an `i32`, a bad
    /// request otherwise.
    pub fn as_i32(&self) -> (r: Result<i32, AppError>)
        ensures
            self.0 <= i32::MAX ==> r == Ok::<i32, AppError>(self.0 as i32),
            self.0 > i32::MAX ==> (r matches Err(e) && is_api(e, BAD_REQUEST, id_out_of_range_message())),
    {
        if self.0 <= 2147483647 {
            Ok(self.0 as i32)
        } else {
            proof { reveal_strlit("ID 超出范围"); }
            Err(AppError::api(BAD_REQUEST, "ID 超出范围"))
        }
    }

    /// The id read from the path, or a bad request when the segment was
    /// not an unsigned 32-bit number (`parsed` is `None`).
    pub fn from_path(parsed: Option<u32>) -> (r: Result<ResourceId, AppError>)
        ensures
            match parsed {
                Some(id) => r matches Ok(rid) && rid.0 == id,
                None => r matches Err(e) && is_api(e, BAD_REQUEST, invalid_id_message()),
            },
    {
        match parsed {
            Some(id) => Ok(ResourceId(id)),
            None => {
                proof { reveal_strlit("无效的ID"); }
                Err(AppError::api(BAD_REQUEST, "无效的ID"))
            },
        }
    }
}

/// A JSON body that was read and passed its rules.
pub struct ValidatedJson<T>(pub T);

/// A query that was read and passed its rules.
pub struct ValidatedQuery<T>(pub T);

impl<T> std::ops::Deref for ValidatedJson<T> {
    type Target = T;

    fn deref(&self) -> (r: &T)
        ensures
            *r == self.0,
    {
        &self.0
    }
}

impl<T> std::ops::Deref for ValidatedQuery<T> {
    type Target = T;

    fn deref(&self) -> (r: &T)
        ensures
            *r == self.0,
    {
        &self.0
    }
}

impl<T: Validate> ValidatedJson<T> {
    /// Accepts a body: one that could not be read (`None`) is a bad
    /// request; one that breaks its rules is answered with the broken
    /// rules; any other is accepted as it is.
    pub fn accept(parsed: Option<T>) -> (r: Result<ValidatedJson<T>, AppError>)
        ensures
            match parsed {
                None => r matches Err(e) && is_api(e, BAD_REQUEST, unreadable_body_message()),
                Some(v) => if v.failed_rules().len() == 0 {
                    r matches Ok(j) && j.0 == v
                } else {
                    r matches Err(AppError::Validation(errs)) && errors_view(errs.errors@) == v.failed_rules()
                },
            },
    {
        match parsed {
            None => {
                proof { reveal_strlit("请求参数格式错误"); }
                Err(AppError::api(BAD_REQUEST, "请求参数格式错误"))
            },
            Some(v) => match v.validate() {
                Ok(()) => Ok(ValidatedJson(v)),
                Err(errs) => Err(AppError::Validation(errs)),
            },
        }
    }
}

impl<T: Validate> ValidatedQuery<T> {
    /// Accepts a query: one that could not be read is a bad request with
    /// the reader's message; one that breaks its rules is answered with the
    /// broken rules; any other is accepted as it is.
    pub fn accept(parsed: Result<T, String>) -> (r: Result<ValidatedQuery<T>, AppError>)
        ensures
            match parsed {
                Err(msg) => r matches Err(e) && is_api(e, BAD_REQUEST, msg@),
                Ok(v) => if v.failed_rules().len() == 0 {
                    r matches Ok(q) && q.0 == v
                } else {
                    r matches Err(AppError::Validation(errs)) && errors_view(errs.errors@) == v.failed_rules()
                },
            },
    {
        match parsed {
            Err(msg) => Err(AppError::Api(BAD_REQUEST, msg)),
            Ok(v) => match v.validate() {
                Ok(()) => Ok(ValidatedQuery(v)),
                Err(errs) => Err(AppError::Validation(errs)),
            },
        }
    }
}

} // verus!
