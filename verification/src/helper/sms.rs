//! Verification codes sent by text message: how they are made, where they
//! are kept, and how a submitted code is judged.
use vstd::prelude::*;
use crate::project::error::{AppError, is_api, BAD_REQUEST, TOO_MANY_REQUESTS};
use crate::text::{decimal, decimal_string, all_digits, lemma_decimal_all_digits, lemma_decimal_six_digits, str_eq};

verus! {

/// Prefix of the key under which a phone's code is kept.
pub const CODE_PREFIX: &'static str = "sms:code:";
/// Seconds a code stays valid.
pub const CODE_EXPIRE_SECONDS: u64 = 300;
/// Prefix of the key that marks a phone as recently served.
pub const LIMIT_PREFIX: &'static str = "sms:limit:";
/// Seconds between two codes for one phone.
pub const MIN_INTERVAL_SECONDS: u64 = 60;
/// Smallest code.
pub const CODE_MIN: u32 = 100000;
/// Largest code.
pub const CODE_MAX: u32 = 999999;

/// Calls `rand::Rng::gen_range` on the thread-local generator over the
/// inclusive range `lo..=hi`: the number is random, and lies in the range.
#[verifier::external_body]
fn random_in_range(lo: u32, hi: u32) -> (r: u32)
    requires
        lo <= hi,
    ensures
        lo <= r <= hi,
{
    rand::Rng::gen_range(&mut rand::thread_rng(), lo..=hi)
}

/// Whether `code` is the decimal rendering of a number from 100000 to
/// 999999.
pub open spec fn is_sms_code(code: Seq<char>) -> bool {
    exists|n: nat| CODE_MIN <= n <= CODE_MAX && #[trigger] decimal(n) == code
}

/// A random six-digit verification code.
pub fn generate_code() -> (r: String)
    ensures
        is_sms_code(r@),
        r@.len() == 6,
        all_digits(r@),
{
    let n = random_in_range(CODE_MIN, CODE_MAX);
    let s = decimal_string(n as u64);
    proof {
        lemma_decimal_six_digits(n as nat);
        lemma_decimal_all_digits(n as nat);
        assert(decimal(n as nat) == s@);
    }
    s
}

/// `prefix` followed by `phone`.
pub open spec fn prefixed_key(prefix: Seq<char>, phone: Seq<char>) -> Seq<char> {
    prefix + phone
}

/// The key under which the code for `phone` is kept.
pub fn code_key(phone: &str) -> (r: String)
    ensures
        r@ == prefixed_key(CODE_PREFIX@, phone@),
{
    let mut s = String::from_str(CODE_PREFIX);
    s.append(phone);
    s
}

/// The key that marks `phone` as recently served.
pub fn limit_key(phone: &str) -> (r: String)
    ensures
        r@ == prefixed_key(LIMIT_PREFIX@, phone@),
{
    let mut s = String::from_str(LIMIT_PREFIX);
    s.append(phone);
    s
}

/// The message of a request refused for coming too soon.
pub open spec fn too_frequent_message() -> Seq<char> {
    "发送过于频繁，请稍后再试"@
}

/// The rate check before a code is sent: the request goes on when this
/// phone's mark was just set (none was there), and is refused with 429
/// otherwise.
pub fn rate_limit_check(mark_was_set: bool) -> (r: Result<(), AppError>)
    ensures
        mark_was_set ==> r is Ok,
        !mark_was_set ==> (r matches Err(e) && is_api(e, TOO_MANY_REQUESTS, too_frequent_message())),
{
    if mark_was_set {
        Ok(())
    } else {
        proof { reveal_strlit("发送过于频繁，请稍后再试"); }
        Err(AppError::api(TOO_MANY_REQUESTS, "发送过于频繁，请稍后再试"))
    }
}

/// The message of a code that is missing or has expired.
pub open spec fn code_missing_message() -> Seq<char> {
    "验证码已过期或不存在"@
}

/// The message of a wrong code.
pub open spec fn code_wrong_message() -> Seq<char> {
    "验证码错误"@
}

/// What judging the submitted `code` against the kept one answers.
pub open spec fn code_check_outcome(stored: Option<Seq<char>>, code: Seq<char>, r: Result<(), AppError>) -> bool {
    match stored {
        None => r matches Err(e) && is_api(e, BAD_REQUEST, code_missing_message()),
        Some(s) => if s == code {
            r is Ok
        } else {
            r matches Err(e) && is_api(e, BAD_REQUEST, code_wrong_message())
        },
    }
}

/// Judges a submitted code against the one that was kept (and has now been
/// taken out): no kept code is a bad request, a different code is a bad
/// request, the same code passes.
pub fn check_code(stored: Option<&str>, code: &str) -> (r: Result<(), AppError>)
    ensures
        code_check_outcome(match stored {
            Some(s) => Some(s@),
            None => None,
        }, code@, r),
{
    match stored {
        None => {
            proof { reveal_strlit("验证码已过期或不存在"); }
            Err(AppError::api(BAD_REQUEST, "验证码已过期或不存在"))
        },
        Some(s) => {
            if str_eq(s, code) {
                Ok(())
            } else {
                proof { reveal_strlit("验证码错误"); }
                Err(AppError::api(BAD_REQUEST, "验证码错误"))
            }
        },
    }
}

/// The code that was kept is accepted when it is submitted back, and no
/// submitted code is accepted when none was kept.
pub proof fn law_kept_code_is_accepted(code: Seq<char>, submitted: Seq<char>, r: Result<(), AppError>, r2: Result<(), AppError>)
    requires
        code_check_outcome(Some(code), code, r),
        code_check_outcome(None, submitted, r2),
    ensures
        r is Ok,
        r2 is Err,
{
}

/// A submitted code is accepted only when it is the kept code itself: any
/// other code, even one differing in a single digit, is refused as wrong,
/// and with no kept code every submission is refused as missing.
pub proof fn law_only_the_kept_code_passes(
    stored: Option<Seq<char>>,
    code: Seq<char>,
    r: Result<(), AppError>,
)
    requires
        code_check_outcome(stored, code, r),
    ensures
        r is Ok <==> stored == Some(code),
        (stored matches Some(s) && s != code) ==> (r matches Err(e) && is_api(e, BAD_REQUEST, "验证码错误"@)),
        stored is None ==> (r matches Err(e) && is_api(e, BAD_REQUEST, "验证码已过期或不存在"@)),
{
}

} // verus!
