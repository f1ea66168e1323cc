//! The service's error type and how each error is answered.
use vstd::prelude::*;

verus! {

/// HTTP status of a bad request.
pub const BAD_REQUEST: u16 = 400;
/// HTTP status of a request without valid credentials.
pub const UNAUTHORIZED: u16 = 401;
/// HTTP status of a missing resource.
pub const NOT_FOUND: u16 = 404;
/// HTTP status of a rate-limited request.
pub const TOO_MANY_REQUESTS: u16 = 429;
/// HTTP status of a server-side failure.
pub const INTERNAL_SERVER_ERROR: u16 = 500;
/// HTTP status of a failing upstream service.
pub const BAD_GATEWAY: u16 = 502;

/// One failed rule on one input field.
pub struct FieldError {
    /// Name of the field.
    pub field: String,
    /// Name of the rule that failed (`length`, `range`, `regex`, `required`).
    pub code: String,
    /// Message attached to the rule, if any.
    pub message: Option<String>,
}

/// All failed rules of one validated input.
pub struct ValidationErrors {
    pub errors: Vec<FieldError>,
}

/// A failure reported by the database layer, carried by its message.
pub struct DbError {
    pub message: String,
}

/// The service's error: a database failure, an input that failed its
/// rules, or an answer with a status code and a message.
pub enum AppError {
    DB(DbError),
    Validation(ValidationErrors),
    Api(u16, String),
}

/// The body that answers an error.
pub enum ErrorBody {
    /// `{ code, message, data: null }`
    Message { code: u16, message: String },
    /// `{ code, message, errors, data: null }`
    Invalid { code: u16, message: String, errors: ValidationErrors },
}

/// Handler result: the value on success, the error otherwise.
pub type ApiResult<T> = Result<T, AppError>;

/// Whether `e` is an answer with status `code` and message `msg`.
pub open spec fn is_api(e: AppError, code: u16, msg: Seq<char>) -> bool {
    e matches AppError::Api(c, m) && c == code && m@ == msg
}

/// The message that a database failure is answered with.
pub open spec fn internal_message() -> Seq<char> {
    "服务器内部错误"@
}

/// The message that an input that failed its rules is answered with.
pub open spec fn validation_message() -> Seq<char> {
    "输入验证失败"@
}

/// The rendering of one failed rule: `field: message`, or `field: code`
/// where the rule carries no message.
pub open spec fn field_error_text(e: FieldError) -> Seq<char> {
    e.field@ + ": "@ + match e.message {
        Some(m) => m@,
        None => e.code@,
    }
}

/// The failed rules, one per line.
pub open spec fn field_errors_text(errs: Seq<FieldError>) -> Seq<char>
    decreases errs.len(),
{
    if errs.len() == 0 {
        Seq::empty()
    } else if errs.len() == 1 {
        field_error_text(errs[0])
    } else {
        field_errors_text(errs.drop_last()) + "\n"@ + field_error_text(errs.last())
    }
}

/// How an error is displayed.
pub open spec fn display_text(e: AppError) -> Seq<char> {
    match e {
        AppError::DB(d) => "数据库错误: "@ + d.message@,
        AppError::Validation(v) => "验证错误: "@ + field_errors_text(v.errors@),
        AppError::Api(_, m) => m@,
    }
}

impl FieldError {
    /// A failed rule with its message.
    pub fn new(field: &str, code: &str, message: &str) -> (r: Self)
        ensures
            r.field@ == field@,
            r.code@ == code@,
            r.message matches Some(m) && m@ == message@,
    {
        FieldError { field: field.to_string(), code: code.to_string(), message: Some(message.to_string()) }
    }

    /// A failed rule without a message.
    pub fn without_message(field: &str, code: &str) -> (r: Self)
        ensures
            r.field@ == field@,
            r.code@ == code@,
            r.message is None,
    {
        FieldError { field: field.to_string(), code: code.to_string(), message: None }
    }

    /// The rendering of this failed rule.
    pub fn to_text(&self) -> (r: String)
        ensures
            r@ == field_error_text(*self),
    {
        let mut s = String::from_str(self.field.as_str());
        s.append(": ");
        proof { reveal_strlit(": "); }
        match &self.message {
            Some(m) => s.append(m.as_str()),
            None => s.append(self.code.as_str()),
        }
        s
    }
}

impl ValidationErrors {
    /// No failed rule yet.
    pub fn new() -> (r: Self)
        ensures
            r.errors@.len() == 0,
    {
        ValidationErrors { errors: Vec::new() }
    }

    /// Whether no rule failed.
    pub fn is_empty(&self) -> (r: bool)
        ensures
            r == (self.errors@.len() == 0),
    {
        self.errors.len() == 0
    }

    /// Records one more failed rule.
    pub fn add(&mut self, e: FieldError)
        ensures
            final(self).errors@ == old(self).errors@.push(e),
    {
        self.errors.push(e);
    }

    /// The failed rules, one per line.
    pub fn to_text(&self) -> (r: String)
        ensures
            r@ == field_errors_text(self.errors@),
    {
        let mut s = String::new();
        let n = self.errors.len();
        let mut i: usize = 0;
        proof { reveal_strlit("\n"); }
        while i < n
            invariant
                n == self.errors@.len(),
                i <= n,
                s@ == field_errors_text(self.errors@.subrange(0, i as int)),
            decreases n - i,
        {
            if i > 0 {
                s.append("\n");
            }
            let t = self.errors[i].to_text();
            s.append(t.as_str());
            proof {
                let pre = self.errors@.subrange(0, i as int);
                let next = self.errors@.subrange(0, i + 1);
                assert(next.drop_last() =~= pre);
                assert(next.last() == self.errors@[i as int]);
                if i == 0 {
                    assert(s@ =~= field_error_text(next[0]));
                } else {
                    assert(s@ =~= field_errors_text(pre) + "\n"@ + field_error_text(next.last()));
                }
            }
            i = i + 1;
        }
        assert(self.errors@.subrange(0, n as int) =~= self.errors@);
        s
    }
}

impl AppError {
    /// A server-side failure with the given message.
    pub fn internal(msg: &str) -> (r: Self)
        ensures
            is_api(r, INTERNAL_SERVER_ERROR, msg@),
    {
        AppError::Api(INTERNAL_SERVER_ERROR, msg.to_string())
    }

    /// An answer with the given status code and message.
    pub fn api(code: u16, msg: &str) -> (r: Self)
        ensures
            is_api(r, code, msg@),
    {
        AppError::Api(code, msg.to_string())
    }

    /// The text of this error.
    pub fn to_display_string(&self) -> (r: String)
        ensures
            r@ == display_text(*self),
    {
        match self {
            AppError::DB(d) => {
                proof { reveal_strlit("数据库错误: "); }
                let mut s = String::from_str("数据库错误: ");
                s.append(d.message.as_str());
                s
            },
            AppError::Validation(v) => {
                proof { reveal_strlit("验证错误: "); }
                let mut s = String::from_str("验证错误: ");
                let t = v.to_text();
                s.append(t.as_str());
                s
            },
            AppError::Api(_, m) => m.clone(),
        }
    }

    /// The status code and body that answer this error. A database failure
    /// is answered as a server error without its details; failed input
    /// rules as a bad request listing them; any other error with its own
    /// status code and message.
    pub fn into_response_parts(self) -> (r: (u16, ErrorBody))
        ensures
            match self {
                AppError::DB(_) => {
                    &&& r.0 == INTERNAL_SERVER_ERROR
                    &&& r.1 matches ErrorBody::Message { code, message }
                    &&& code == INTERNAL_SERVER_ERROR
                    &&& message@ == internal_message()
                },
                AppError::Validation(e) => {
                    &&& r.0 == BAD_REQUEST
                    &&& r.1 matches ErrorBody::Invalid { code, message, errors }
                    &&& code == BAD_REQUEST
                    &&& message@ == validation_message()
                    &&& errors == e
                },
                AppError::Api(s, m) => {
                    &&& r.0 == s
                    &&& r.1 matches ErrorBody::Message { code, message }
                    &&& code == s
                    &&& message == m
                },
            },
    {
        match self {
            AppError::DB(_) => {
                proof { reveal_strlit("服务器内部错误"); }
                (INTERNAL_SERVER_ERROR, ErrorBody::Message {
                    code: INTERNAL_SERVER_ERROR,
                    message: String::from_str("服务器内部错误"),
                })
            },
            AppError::Validation(e) => {
                proof { reveal_strlit("输入验证失败"); }
                (BAD_REQUEST, ErrorBody::Invalid {
                    code: BAD_REQUEST,
                    message: String::from_str("输入验证失败"),
                    errors: e,
                })
            },
            AppError::Api(s, m) => (s, ErrorBody::Message { code: s, message: m }),
        }
    }
}

impl From<ValidationErrors> for AppError {
    fn from(e: ValidationErrors) -> (r: AppError) {
        AppError::Validation(e)
    }
}

impl vstd::std_specs::convert::FromSpecImpl<ValidationErrors> for AppError {
    open spec fn obeys_from_spec() -> bool {
        true
    }

    open spec fn from_spec(e: ValidationErrors) -> AppError {
        AppError::Validation(e)
    }
}

impl From<DbError> for AppError {
    fn from(e: DbError) -> (r: AppError) {
        AppError::DB(e)
    }
}

impl vstd::std_specs::convert::FromSpecImpl<DbError> for AppError {
    open spec fn obeys_from_spec() -> bool {
        true
    }

    open spec fn from_spec(e: DbError) -> AppError {
        AppError::DB(e)
    }
}

/// The successful result carrying `data`.
pub fn ok<T>(data: T) -> (r: ApiResult<T>)
    ensures
        r == Ok::<T, AppError>(data),
{
    Ok(data)
}

} // verus!
