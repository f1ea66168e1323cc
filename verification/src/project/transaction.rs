//! The decisions around running a handler's writes in one database
//! transaction: the writes are committed only when the handler succeeded,
//! and a transaction that cannot be begun or committed is answered as a
//! server error.
use vstd::prelude::*;
use super::error::{AppError, ApiResult, is_api, internal_message, INTERNAL_SERVER_ERROR};

verus! {

/// What happens once the database answered the request to begin: the
/// writes go ahead, or the request is answered as a server error.
pub fn after_begin(begun: bool) -> (r: Result<(), AppError>)
    ensures
        begun ==> r is Ok,
        !begun ==> (r matches Err(e) && is_api(e, INTERNAL_SERVER_ERROR, internal_message())),
{
    if begun {
        Ok(())
    } else {
        proof { reveal_strlit("服务器内部错误"); }
        Err(AppError::internal("服务器内部错误"))
    }
}

/// Whether the writes of a handler with this result are committed: only
/// on success. Otherwise the transaction is dropped, which rolls it back.
pub fn should_commit<T>(result: &ApiResult<T>) -> (r: bool)
    ensures
        r == (result is Ok),
{
    result.is_ok()
}

/// Whether `r` is the answer once the transaction ended, given the
/// handler's result and whether the commit went through: a success whose
/// commit failed is answered as a server error; anything else is the
/// handler's own result.
pub open spec fn is_commit_answer<T>(result: ApiResult<T>, committed: bool, r: ApiResult<T>) -> bool {
    if result is Ok && !committed {
        r matches Err(e) && is_api(e, INTERNAL_SERVER_ERROR, internal_message())
    } else {
        r == result
    }
}

/// The answer once the transaction ended. `committed` is whether the commit
/// went through; it is not asked when nothing was committed.
pub fn after_commit<T>(result: ApiResult<T>, committed: bool) -> (r: ApiResult<T>)
    ensures
        is_commit_answer(result, committed, r),
{
    match result {
        Ok(v) => {
            if committed {
                Ok(v)
            } else {
                proof { reveal_strlit("服务器内部错误"); }
                Err(AppError::internal("服务器内部错误"))
            }
        },
        Err(e) => Err(e),
    }
}

/// A handler run in a transaction answers with success only when its writes
/// were committed, and then with the handler's own value; a handler's
/// failure is answered unchanged and its writes are not committed.
pub proof fn law_success_only_when_committed<T>(result: ApiResult<T>, committed: bool, r: ApiResult<T>)
    requires
        is_commit_answer(result, committed, r),
    ensures
        r is Ok ==> (result is Ok && committed && r == result),
        result is Err ==> r == result,
{
}

} // verus!
