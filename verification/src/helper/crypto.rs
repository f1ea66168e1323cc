//! Password hashing with bcrypt.
use vstd::prelude::*;
use crate::project::error::{AppError, is_api, internal_message, INTERNAL_SERVER_ERROR};

verus! {

#[verifier::external_type_specification]
#[verifier::external_body]
pub struct ExBcryptError(bcrypt::BcryptError);

/// What `bcrypt::verify(password, hash)` answers: `Some(b)` when the hash
/// is readable and `b` tells whether the password matches it, `None` when
/// the hash is malformed or uses a cost out of range.
pub uninterp spec fn bcrypt_verdict(password: Seq<char>, hash: Seq<char>) -> Option<bool>;

/// Calls `bcrypt::hash` with the default cost (12) and a random salt.
/// The result depends on the salt, so it is not named; the crate's source
/// shows that verifying the same password against the produced hash
/// recomputes it with the stored cost and salt and so succeeds, that
/// verifying any password against it reads the hash and answers (the hash
/// is well formed with cost 12, and `verify` does not refuse long
/// passwords), and that the hash is 60 characters long.
#[verifier::external_body]
fn bcrypt_hash(password: &str) -> (r: Result<String, bcrypt::BcryptError>)
    ensures
        r matches Ok(h) ==> h@.len() == 60 && bcrypt_verdict(password@, h@) == Some(true),
        r matches Ok(h) ==> forall|p: Seq<char>| #[trigger] bcrypt_verdict(p, h@) is Some,
{
    bcrypt::hash(password, bcrypt::DEFAULT_COST)
}

/// Calls `bcrypt::verify(password, hash)`. Its answer is named; the crate
/// refuses (with `InvalidHash`) every hash that is not 60 ASCII bytes, so
/// one of any other number of characters gives an error.
#[verifier::external_body]
fn bcrypt_verify(password: &str, hash: &str) -> (r: Result<bool, bcrypt::BcryptError>)
    ensures
        match r {
            Ok(b) => bcrypt_verdict(password@, hash@) == Some(b),
            Err(_) => bcrypt_verdict(password@, hash@) is None,
        },
        hash@.len() != 60 ==> r is Err,
{
    bcrypt::verify(password, hash)
}

/// Whether `hash` is a bcrypt hash of `password` that checks against it,
/// and against which every password can be checked.
pub open spec fn hashed_from(password: Seq<char>, hash: Seq<char>) -> bool {
    &&& hash.len() == 60
    &&& bcrypt_verdict(password, hash) == Some(true)
    &&& forall|p: Seq<char>| #[trigger] bcrypt_verdict(p, hash) is Some
}

/// What checking `password` against `hash` answers.
pub open spec fn verify_outcome(password: Seq<char>, hash: Seq<char>, r: Result<bool, AppError>) -> bool {
    match r {
        Ok(b) => bcrypt_verdict(password, hash) == Some(b),
        Err(e) => bcrypt_verdict(password, hash) is None && is_api(e, INTERNAL_SERVER_ERROR, internal_message()),
    }
}

/// Hashes a password. A failure of the hashing library is answered as a
/// server error.
pub fn hash_password(password: &str) -> (r: Result<String, AppError>)
    ensures
        match r {
            Ok(h) => hashed_from(password@, h@),
            Err(e) => is_api(e, INTERNAL_SERVER_ERROR, internal_message()),
        },
{
    proof { reveal_strlit("服务器内部错误"); }
    match bcrypt_hash(password) {
        Ok(h) => Ok(h),
        Err(_) => Err(AppError::internal("服务器内部错误")),
    }
}

/// Checks a password against a hash: whether it matches, or a server
/// error when the hash cannot be read.
pub fn verify_password(password: &str, hash: &str) -> (r: Result<bool, AppError>)
    ensures
        verify_outcome(password@, hash@, r),
        hash@.len() != 60 ==> r is Err,
{
    proof { reveal_strlit("服务器内部错误"); }
    match bcrypt_verify(password, hash) {
        Ok(b) => Ok(b),
        Err(_) => Err(AppError::internal("服务器内部错误")),
    }
}

/// A password checked against a hash made from it matches: whatever
/// `hash_password(p)` hands back, `verify_password(p, _)` on it answers
/// `Ok(true)`.
pub proof fn law_verify_accepts_own_hash(password: Seq<char>, hash: Seq<char>, r: Result<bool, AppError>)
    requires
        hashed_from(password, hash),
        verify_outcome(password, hash, r),
    ensures
        r matches Ok(b) && b,
{
}

/// Checking any password against a hash made by `hash_password` never
/// fails: it answers whether the password matches.
pub proof fn law_verify_never_errs_on_own_hash(
    password: Seq<char>,
    hash: Seq<char>,
    other: Seq<char>,
    r: Result<bool, AppError>,
)
    requires
        hashed_from(password, hash),
        verify_outcome(other, hash, r),
    ensures
        r is Ok,
{
    assert(bcrypt_verdict(other, hash) is Some);
}

} // verus!
