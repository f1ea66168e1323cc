//! What the sign-up, sign-in, refresh and outside sign-in endpoints
//! decide between their reads and writes.
use vstd::prelude::*;
use super::schemas::{RegisterInput, LoginInput};
use super::jwt::{Claims, verify_refresh_token, refresh_kind, read_back, is_uuid_v4_text};
use crate::apps::user::constants::{ClassType, class_number};
use crate::entity::account::{Model, NewAccount, AccountUpdate};
use crate::helper::crypto::{hash_password, verify_password, hashed_from, bcrypt_verdict};
use crate::project::configs::Jwt;
use crate::project::error::{AppError, is_api, internal_message, BAD_REQUEST, UNAUTHORIZED, INTERNAL_SERVER_ERROR};
use crate::text::str_eq;

verus! {

/// The message of a phone number that already has an account.
pub open spec fn phone_taken_message() -> Seq<char> {
    "手机号已注册"@
}

/// The message of a sign-in with an unknown phone or a wrong password.
pub open spec fn bad_credentials_message() -> Seq<char> {
    "手机号或密码错误"@
}

/// The first check of a sign-up, made before the code is taken out of the
/// store so that a refused sign-up does not spend it: a phone number that
/// already has an account is refused.
pub fn check_phone_free(phone_taken: bool) -> (r: Result<(), AppError>)
    ensures
        phone_taken <==> r is Err,
        r matches Err(e) ==> is_api(e, BAD_REQUEST, phone_taken_message()),
{
    if phone_taken {
        proof { reveal_strlit("手机号已注册"); }
        Err(AppError::api(BAD_REQUEST, "手机号已注册"))
    } else {
        Ok(())
    }
}

/// The account for a sign-up, once the code has been accepted: refused
/// when the phone already has an account; otherwise a fresh public id, the
/// nickname, the password hashed, the name, the phone, an ordinary user.
/// A failure to hash is answered as a server error.
pub fn plan_register(input: RegisterInput, phone_taken: bool) -> (r: Result<NewAccount, AppError>)
    ensures
        phone_taken ==> (r matches Err(e) && is_api(e, BAD_REQUEST, phone_taken_message())),
        !phone_taken ==> match r {
            Ok(a) => {
                &&& is_uuid_v4_text(a.uid@)
                &&& a.nickname == input.nickname
                &&& hashed_from(input.password@, a.password@)
                &&& a.name == input.name
                &&& a.telephone == Some(input.phone)
                &&& a.account_type == class_number(ClassType::User)
                &&& a.gender is None && a.email is None && a.address is None
                &&& a.last_login_dt is None
            },
            Err(e) => is_api(e, INTERNAL_SERVER_ERROR, internal_message()),
        },
{
    match check_phone_free(phone_taken) {
        Ok(()) => {},
        Err(e) => return Err(e),
    }
    let hashed = match hash_password(input.password.as_str()) {
        Ok(h) => h,
        Err(e) => return Err(e),
    };
    Ok(NewAccount {
        uid: super::jwt::new_uuid(),
        account_type: ClassType::User.as_i16(),
        nickname: input.nickname,
        password: hashed,
        name: input.name,
        gender: None,
        telephone: Some(input.phone),
        email: None,
        address: None,
        last_login_dt: None,
    })
}

/// What a sign-in answers for the account found by phone (if any): the
/// account's id when its password matches; an unauthorized answer when
/// there is no account, the account has no password (it was made by an
/// outside sign-in), or the password does not match; a server error when
/// the stored hash cannot be read.
pub fn check_login(input: &LoginInput, user: Option<&Model>) -> (r: Result<i32, AppError>)
    ensures
        match user {
            None => r matches Err(e) && is_api(e, UNAUTHORIZED, bad_credentials_message()),
            Some(u) => if u.password@.len() == 0 {
                r matches Err(e) && is_api(e, UNAUTHORIZED, bad_credentials_message())
            } else {
                match bcrypt_verdict(input.password@, u.password@) {
                    Some(true) => r == Ok::<i32, AppError>(u.id),
                    Some(false) => r matches Err(e) && is_api(e, UNAUTHORIZED, bad_credentials_message()),
                    None => r matches Err(e) && is_api(e, INTERNAL_SERVER_ERROR, internal_message()),
                }
            },
        },
{
    proof { reveal_strlit("手机号或密码错误"); }
    let u = match user {
        Some(u) => u,
        None => return Err(AppError::api(UNAUTHORIZED, "手机号或密码错误")),
    };
    if u.password.unicode_len() == 0 {
        return Err(AppError::api(UNAUTHORIZED, "手机号或密码错误"));
    }
    match verify_password(input.password.as_str(), u.password.as_str()) {
        Ok(true) => Ok(u.id),
        Ok(false) => Err(AppError::api(UNAUTHORIZED, "手机号或密码错误")),
        Err(e) => Err(e),
    }
}

/// The write that records a sign-in at `now`.
pub fn login_write(now: i64) -> (r: AccountUpdate)
    ensures
        r.last_login_dt == Some(now),
        r.nickname is None && r.password is None && r.gender is None && r.name is None,
        r.telephone is None && r.email is None && r.address is None,
{
    let mut u = AccountUpdate::empty();
    u.last_login_dt = Some(now);
    u
}

/// The message of a refresh token that is not accepted.
pub open spec fn bad_refresh_token_message() -> Seq<char> {
    "Refresh Token 无效或已过期"@
}

/// The message of a refresh token that was already used.
pub open spec fn used_refresh_token_message() -> Seq<char> {
    "Refresh Token 已失效"@
}

/// The message of a token whose user is gone.
pub open spec fn token_user_missing_message() -> Seq<char> {
    "用户不存在"@
}

/// The claims that a refresh token was signed for with the refresh secret,
/// or an unauthorized answer when it is not accepted. Whether a token is accepted depends on the current time.
pub fn check_refresh_token(cfg: &Jwt, token: &str) -> (r: Result<Claims, AppError>)
    ensures
        match r {
            Ok(c) => c.typ@ == refresh_kind() && read_back(c@, token@, cfg.refresh_secret@),
            Err(e) => is_api(e, UNAUTHORIZED, bad_refresh_token_message()),
        },
{
    match verify_refresh_token(cfg, token) {
        Ok(c) => Ok(c),
        Err(_) => {
            proof { reveal_strlit("Refresh Token 无效或已过期"); }
            Err(AppError::api(UNAUTHORIZED, "Refresh Token 无效或已过期"))
        },
    }
}

/// Prefix of the key that marks a refresh token as used.
pub const BLACKLIST_PREFIX: &'static str = "token:blacklist:";

/// The key that marks the refresh token with id `jti` as used.
pub fn blacklist_key(jti: &str) -> (r: String)
    ensures
        r@ == BLACKLIST_PREFIX@ + jti@,
{
    let mut s = String::from_str(BLACKLIST_PREFIX);
    s.append(jti);
    s
}

/// Seconds past its expiry during which the token library still accepts a
/// token (the `leeway` of `jsonwebtoken::Validation::default()`).
pub const TOKEN_LEEWAY_SECONDS: i64 = 60;

/// How long the used-mark of a token expiring at `exp` must last, seen at
/// `now`: one second past the last moment at which the token library still
/// accepts the token (its expiry plus the leeway); no mark once that moment
/// has passed. A life beyond the range of timestamps is capped.
pub open spec fn spec_blacklist_ttl(exp: i64, now: i64) -> Option<i64> {
    if exp + TOKEN_LEEWAY_SECONDS - now >= 0 {
        if exp + TOKEN_LEEWAY_SECONDS - now + 1 <= i64::MAX {
            Some((exp + TOKEN_LEEWAY_SECONDS - now + 1) as i64)
        } else {
            Some(i64::MAX)
        }
    } else {
        None
    }
}

/// How long the used-mark of a token must last.
pub fn blacklist_ttl(exp: i64, now: i64) -> (r: Option<i64>)
    ensures
        r == spec_blacklist_ttl(exp, now),
{
    let left: i128 = exp as i128 + TOKEN_LEEWAY_SECONDS as i128 - now as i128;
    if left >= 0 {
        if left + 1 <= i64::MAX as i128 {
            Some((left + 1) as i64)
        } else {
            Some(i64::MAX)
        }
    } else {
        None
    }
}

/// A token that the library may still accept at `now` gets a used-mark,
/// and the mark lasts past the last moment at which the token is accepted
/// (where that moment lies within the range of timestamps).
pub proof fn law_mark_outlives_acceptance(exp: i64, now: i64)
    requires
        now <= exp + TOKEN_LEEWAY_SECONDS,
        exp + TOKEN_LEEWAY_SECONDS - now + 1 <= i64::MAX,
    ensures
        spec_blacklist_ttl(exp, now) matches Some(t) && now + t > exp + TOKEN_LEEWAY_SECONDS,
{
}

/// What the first-use check answers: the refresh goes on exactly when the
/// mark was new; otherwise the token counts as used.
pub open spec fn first_use_outcome(mark_was_set: bool, r: Result<(), AppError>) -> bool {
    &&& (mark_was_set <==> r is Ok)
    &&& (r matches Err(e) ==> is_api(e, UNAUTHORIZED, used_refresh_token_message()))
}

/// The answer after trying to mark a refresh token as used: it goes on
/// when the mark was new, and is refused when the token was already used.
pub fn check_first_use(mark_was_set: bool) -> (r: Result<(), AppError>)
    ensures
        first_use_outcome(mark_was_set, r),
{
    if mark_was_set {
        Ok(())
    } else {
        proof { reveal_strlit("Refresh Token 已失效"); }
        Err(AppError::api(UNAUTHORIZED, "Refresh Token 已失效"))
    }
}

/// The user of a refresh token, or an unauthorized answer when it is gone.
pub fn require_token_user<T>(found: Option<T>) -> (r: Result<T, AppError>)
    ensures
        match found {
            Some(v) => r == Ok::<T, AppError>(v),
            None => r matches Err(e) && is_api(e, UNAUTHORIZED, token_user_missing_message()),
        },
{
    match found {
        Some(v) => Ok(v),
        None => {
            proof { reveal_strlit("用户不存在"); }
            Err(AppError::api(UNAUTHORIZED, "用户不存在"))
        },
    }
}

/// The query of a provider's callback.
pub struct OauthCallbackParams {
    pub code: Option<String>,
    pub state: Option<String>,
    pub error: Option<String>,
    pub error_description: Option<String>,
}

/// Prefix of the key under which a CSRF token is kept.
pub const CSRF_TOKEN_PREFIX: &'static str = "oauth2:csrf:";
/// Seconds a CSRF token stays valid.
pub const CSRF_TOKEN_EXPIRE_SECONDS: u64 = 600;

/// The key under which the CSRF token `token` is kept.
pub fn csrf_key(token: &str) -> (r: String)
    ensures
        r@ == CSRF_TOKEN_PREFIX@ + token@,
{
    let mut s = String::from_str(CSRF_TOKEN_PREFIX);
    s.append(token);
    s
}

/// The message of a sign-in that the provider reports as refused.
pub open spec fn denied_message() -> Seq<char> {
    "OAuth2 授权被拒绝"@
}

/// The message of a callback without an authorization code.
pub open spec fn missing_code_message() -> Seq<char> {
    "缺少授权码"@
}

/// The message of a callback without a CSRF token.
pub open spec fn missing_state_message() -> Seq<char> {
    "无效的请求参数"@
}

/// The message of a CSRF token that is unknown or expired.
pub open spec fn unknown_csrf_message() -> Seq<char> {
    "CSRF token 无效或已过期"@
}

/// The message of a CSRF token issued for another provider.
pub open spec fn csrf_mismatch_message() -> Seq<char> {
    "CSRF token 不匹配"@
}

/// The message of a failed exchange of the authorization code.
pub open spec fn exchange_failed_message() -> Seq<char> {
    "OAuth2 授权失败"@
}

/// Checks a callback's query: a reported error refuses the sign-in; then
/// the authorization code and the CSRF token must be there. Hands back the
/// code and the key under which the CSRF token is kept.
pub fn check_callback_params(params: OauthCallbackParams) -> (r: Result<(String, String), AppError>)
    ensures
        params.error is Some ==> (r matches Err(e) && is_api(e, BAD_REQUEST, denied_message())),
        params.error is None && params.code is None ==> (r matches Err(e) && is_api(
            e,
            BAD_REQUEST,
            missing_code_message(),
        )),
        params.error is None && params.code is Some && params.state is None ==> (r matches Err(e)
            && is_api(e, BAD_REQUEST, missing_state_message())),
        params.error is None ==> match (params.code, params.state) {
            (Some(c), Some(s)) => r matches Ok(p) && p.0 == c && p.1@ == CSRF_TOKEN_PREFIX@ + s@,
            _ => r is Err,
        },
{
    if params.error.is_some() {
        proof { reveal_strlit("OAuth2 授权被拒绝"); }
        return Err(AppError::api(BAD_REQUEST, "OAuth2 授权被拒绝"));
    }
    let code = match params.code {
        Some(c) => c,
        None => {
            proof { reveal_strlit("缺少授权码"); }
            return Err(AppError::api(BAD_REQUEST, "缺少授权码"));
        },
    };
    let state = match params.state {
        Some(s) => s,
        None => {
            proof { reveal_strlit("无效的请求参数"); }
            return Err(AppError::api(BAD_REQUEST, "无效的请求参数"));
        },
    };
    Ok((code, csrf_key(state.as_str())))
}

/// What checking the provider that a CSRF token was kept for (`None` when
/// none was kept) against the callback's provider answers: an unknown token
/// and a token of another provider are bad requests; the same provider
/// passes.
pub open spec fn csrf_outcome(stored: Option<Seq<char>>, provider: Seq<char>, r: Result<(), AppError>) -> bool {
    match stored {
        None => r matches Err(e) && is_api(e, BAD_REQUEST, unknown_csrf_message()),
        Some(s) => if s == provider {
            r is Ok
        } else {
            r matches Err(e) && is_api(e, BAD_REQUEST, csrf_mismatch_message())
        },
    }
}

/// A callback passes the CSRF check only when its token was kept for this
/// very provider: a token kept for another provider is refused as a
/// mismatch, and an unknown token as unknown.
pub proof fn law_csrf_only_same_provider(stored: Option<Seq<char>>, provider: Seq<char>, r: Result<(), AppError>)
    requires
        csrf_outcome(stored, provider, r),
    ensures
        r is Ok <==> stored == Some(provider),
        (stored matches Some(s) && s != provider) ==> (r matches Err(e) && is_api(e, BAD_REQUEST, "CSRF token 不匹配"@)),
        stored is None ==> (r matches Err(e) && is_api(e, BAD_REQUEST, "CSRF token 无效或已过期"@)),
{
}

/// A refresh goes on exactly when its used-mark was new; otherwise it is
/// refused as already used.
pub proof fn law_first_use_only(mark_was_set: bool, r: Result<(), AppError>)
    requires
        first_use_outcome(mark_was_set, r),
    ensures
        r is Ok <==> mark_was_set,
        !mark_was_set ==> (r matches Err(e) && is_api(e, UNAUTHORIZED, "Refresh Token 已失效"@)),
{
}

/// Checks the provider that a CSRF token was issued for (taken out of the
/// store, `None` when it was not there) against the provider of the
/// callback.
pub fn check_csrf(stored_provider: Option<&str>, provider: &str) -> (r: Result<(), AppError>)
    ensures
        csrf_outcome(match stored_provider {
            Some(s) => Some(s@),
            None => None,
        }, provider@, r),
{
    match stored_provider {
        None => {
            proof { reveal_strlit("CSRF token 无效或已过期"); }
            Err(AppError::api(BAD_REQUEST, "CSRF token 无效或已过期"))
        },
        Some(s) => if str_eq(s, provider) {
            Ok(())
        } else {
            proof { reveal_strlit("CSRF token 不匹配"); }
            Err(AppError::api(BAD_REQUEST, "CSRF token 不匹配"))
        },
    }
}

/// The answer to a failed exchange of the authorization code.
pub fn exchange_failed() -> (r: AppError)
    ensures
        is_api(r, BAD_REQUEST, exchange_failed_message()),
{
    proof { reveal_strlit("OAuth2 授权失败"); }
    AppError::api(BAD_REQUEST, "OAuth2 授权失败")
}

} // verus!
