//! The error type of the basic handlers and how each error is
//! answered.
use vstd::prelude::*;
use crate::project::error::{DbError, ValidationErrors, field_errors_text, INTERNAL_SERVER_ERROR, BAD_REQUEST};

verus! {

/// A failure of the basic handlers: from the database, from the
/// web framework (by its message), from input rules, or any other failure
/// with its message.
pub enum AppError {
    DBError(DbError),
    AxumError(String),
    ValidatorError(ValidationErrors),
    Other(String),
}

/// Handler result of the basic handlers.
pub type AppResult<T> = Result<T, AppError>;

/// How an error is displayed.
pub open spec fn error_display_text(e: AppError) -> Seq<char> {
    match e {
        AppError::DBError(d) => "数据库错误: "@ + d.message@,
        AppError::AxumError(m) => "Axum框架错误: "@ + m@,
        AppError::ValidatorError(v) => "Validate框架错误: "@ + field_errors_text(v.errors@),
        AppError::Other(m) => "自定义错误: "@ + m@,
    }
}

/// The status code and message that answer an error: every failure but
/// `Other` is a server error carrying the failure's own text; `Other` is a
/// bad request carrying its message.
pub open spec fn error_answer(e: AppError) -> (u16, Seq<char>) {
    match e {
        AppError::DBError(d) => (INTERNAL_SERVER_ERROR, d.message@),
        AppError::AxumError(m) => (INTERNAL_SERVER_ERROR, m@),
        AppError::ValidatorError(v) => (INTERNAL_SERVER_ERROR, field_errors_text(v.errors@)),
        AppError::Other(m) => (BAD_REQUEST, m@),
    }
}

/// Appends `b` to a copy of the literal prefix `a`.
fn prefixed(a: &str, b: &str) -> (r: String)
    ensures
        r@ == a@ + b@,
{
    let mut s = String::from_str(a);
    s.append(b);
    s
}

impl AppError {
    /// The text of this error.
    pub fn to_display_string(&self) -> (r: String)
        ensures
            r@ == error_display_text(*self),
    {
        match self {
            AppError::DBError(d) => {
                proof { reveal_strlit("数据库错误: "); }
                prefixed("数据库错误: ", d.message.as_str())
            },
            AppError::AxumError(m) => {
                proof { reveal_strlit("Axum框架错误: "); }
                prefixed("Axum框架错误: ", m.as_str())
            },
            AppError::ValidatorError(v) => {
                proof { reveal_strlit("Validate框架错误: "); }
                let t = v.to_text();
                prefixed("Validate框架错误: ", t.as_str())
            },
            AppError::Other(m) => {
                proof { reveal_strlit("自定义错误: "); }
                prefixed("自定义错误: ", m.as_str())
            },
        }
    }

    /// The status code and message that answer this error.
    pub fn into_response_parts(self) -> (r: (u16, String))
        ensures
            r.0 == error_answer(self).0,
            r.1@ == error_answer(self).1,
    {
        match self {
            AppError::DBError(d) => (INTERNAL_SERVER_ERROR, d.message),
            AppError::AxumError(m) => (INTERNAL_SERVER_ERROR, m),
            AppError::ValidatorError(v) => (INTERNAL_SERVER_ERROR, v.to_text()),
            AppError::Other(m) => (BAD_REQUEST, m),
        }
    }
}

impl From<ValidationErrors> for AppError {
    fn from(e: ValidationErrors) -> (r: AppError) {
        AppError::ValidatorError(e)
    }
}

impl vstd::std_specs::convert::FromSpecImpl<ValidationErrors> for AppError {
    open spec fn obeys_from_spec() -> bool {
        true
    }

    open spec fn from_spec(e: ValidationErrors) -> AppError {
        AppError::ValidatorError(e)
    }
}

impl From<DbError> for AppError {
    fn from(e: DbError) -> (r: AppError) {
        AppError::DBError(e)
    }
}

impl vstd::std_specs::convert::FromSpecImpl<DbError> for AppError {
    open spec fn obeys_from_spec() -> bool {
        true
    }

    open spec fn from_spec(e: DbError) -> AppError {
        AppError::DBError(e)
    }
}

} // verus!
