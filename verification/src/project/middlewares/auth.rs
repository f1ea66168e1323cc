//! Which requests need a token, and what a verified token grants.
use vstd::prelude::*;
use crate::text::{str_chars, chars_match, chars_contain, has_char};

verus! {

/// The identity that an authenticated request carries.
pub struct AuthContext {
    pub user_id: i32,
}

impl Clone for AuthContext {
    fn clone(&self) -> (r: Self)
        ensures
            r == *self,
    {
        AuthContext { user_id: self.user_id }
    }
}

/// `s` without its trailing `/` characters.
pub open spec fn trim_trailing_slashes(s: Seq<char>) -> Seq<char>
    decreases s.len(),
{
    if s.len() > 0 && s.last() == '/' {
        trim_trailing_slashes(s.drop_last())
    } else {
        s
    }
}

/// The paths that are served without a token.
pub open spec fn public_paths() -> Seq<Seq<char>> {
    seq![
        "/api/v1/auth/sms-code"@,
        "/api/v1/auth/register"@,
        "/api/v1/auth/login"@,
        "/api/v1/auth/refresh"@,
        "/docs"@,
        "/scalar"@,
        "/openapi.json"@,
        "/favicon.ico"@,
    ]
}

/// Prefix of the sign-in endpoints of the outside providers.
pub open spec fn auth_prefix() -> Seq<char> {
    "/api/v1/auth/"@
}

/// The suffix of a provider's callback endpoint.
pub open spec fn callback_suffix() -> Seq<char> {
    "/callback"@
}

/// Whether what follows the sign-in prefix names a provider
/// (`{provider}`) or its callback (`{provider}/callback`).
pub open spec fn is_provider_path(rest: Seq<char>) -> bool {
    ||| !has_char(rest, '/')
    ||| {
        &&& rest.len() >= callback_suffix().len()
        &&& rest.subrange(rest.len() - callback_suffix().len(), rest.len() as int)
            == callback_suffix()
        &&& !has_char(rest.subrange(0, rest.len() - callback_suffix().len()), '/')
    }
}

/// Whether a request path is served without a token: after its trailing
/// slashes are dropped it is one of the public paths, or a provider's
/// sign-in or callback endpoint.
pub open spec fn spec_is_public_path(path: Seq<char>) -> bool {
    let t = trim_trailing_slashes(path);
    ||| public_paths().contains(t)
    ||| {
        &&& t.len() >= auth_prefix().len()
        &&& t.subrange(0, auth_prefix().len() as int) == auth_prefix()
        &&& is_provider_path(t.subrange(auth_prefix().len() as int, t.len() as int))
    }
}

proof fn lemma_trim_prefix(s: Seq<char>, n: int)
    requires
        0 <= n <= s.len(),
        forall|j: int| n <= j < s.len() ==> s[j] == '/',
        n == 0 || s[n - 1] != '/',
    ensures
        trim_trailing_slashes(s) == s.subrange(0, n),
    decreases s.len(),
{
    if s.len() > 0 && s.last() == '/' {
        assert(n < s.len());
        lemma_trim_prefix(s.drop_last(), n);
        assert(s.drop_last().subrange(0, n) =~= s.subrange(0, n));
    } else {
        assert(n == s.len());
        assert(s.subrange(0, n) =~= s);
    }
}

/// Whether a request path is served without a token.
pub fn is_public_path(path: &str) -> (r: bool)
    ensures
        r == spec_is_public_path(path@),
{
    let v = str_chars(path);
    let mut n = v.len();
    while n > 0 && v[n - 1] == '/'
        invariant
            n <= v@.len(),
            forall|j: int| n <= j < v@.len() ==> v@[j] == '/',
        decreases n,
    {
        n = n - 1;
    }
    proof {
        lemma_trim_prefix(v@, n as int);
    }
    let ghost t = v@.subrange(0, n as int);
    let public = chars_match(&v, 0, n, "/api/v1/auth/sms-code")
        || chars_match(&v, 0, n, "/api/v1/auth/register")
        || chars_match(&v, 0, n, "/api/v1/auth/login")
        || chars_match(&v, 0, n, "/api/v1/auth/refresh")
        || chars_match(&v, 0, n, "/docs")
        || chars_match(&v, 0, n, "/scalar")
        || chars_match(&v, 0, n, "/openapi.json")
        || chars_match(&v, 0, n, "/favicon.ico");
    proof {
        let p = public_paths();
        if public {
            assert(exists|k: int| 0 <= k < p.len() && p[k] == t) by {
                if t == p[0] { assert(p[0] == t); }
                else if t == p[1] { assert(p[1] == t); }
                else if t == p[2] { assert(p[2] == t); }
                else if t == p[3] { assert(p[3] == t); }
                else if t == p[4] { assert(p[4] == t); }
                else if t == p[5] { assert(p[5] == t); }
                else if t == p[6] { assert(p[6] == t); }
                else { assert(p[7] == t); }
            }
        } else {
            assert forall|k: int| 0 <= k < p.len() implies p[k] != t by {
                assert(p[0] != t && p[1] != t && p[2] != t && p[3] != t);
                assert(p[4] != t && p[5] != t && p[6] != t && p[7] != t);
            }
        }
    }
    if public {
        return true;
    }
    let plen = "/api/v1/auth/".unicode_len();
    if n < plen || !chars_match(&v, 0, plen, "/api/v1/auth/") {
        proof {
            if n >= plen {
                assert(t.subrange(0, plen as int) =~= v@.subrange(0, plen as int));
            }
        }
        return false;
    }
    let ghost rest = t.subrange(plen as int, n as int);
    proof {
        assert(t.subrange(0, plen as int) =~= v@.subrange(0, plen as int));
        assert(rest =~= v@.subrange(plen as int, n as int));
    }
    if !chars_contain(&v, plen, n, '/') {
        return true;
    }
    let clen = "/callback".unicode_len();
    if n - plen < clen {
        return false;
    }
    let ends = chars_match(&v, n - clen, n, "/callback");
    let head_has_slash = chars_contain(&v, plen, n - clen, '/');
    proof {
        assert(rest.subrange(rest.len() - clen, rest.len() as int)
            =~= v@.subrange(n - clen, n as int));
        assert(rest.subrange(0, rest.len() - clen) =~= v@.subrange(plen as int, n - clen));
    }
    ends && !head_has_slash
}

} // verus!

verus! {

/// What the authentication step decides for a request that goes on.
pub enum AuthDecision {
    /// The path is public: the request goes on without an identity.
    Public,
    /// The token was accepted: the request goes on with this identity.
    Authenticated(AuthContext),
}

/// The message of a request without credentials.
pub open spec fn missing_credentials_message() -> Seq<char> {
    "缺少认证信息"@
}

/// The message of credentials that are not a bearer token.
pub open spec fn bad_scheme_message() -> Seq<char> {
    "认证格式错误"@
}

/// The message of a token that was not accepted.
pub open spec fn bad_token_message() -> Seq<char> {
    "Token 无效或已过期"@
}

/// The prefix of a bearer token in the `Authorization` header.
pub open spec fn bearer_prefix() -> Seq<char> {
    "Bearer "@
}

/// Authenticates a request: public paths go on without an identity; any
/// other needs an `Authorization` header (`header` is its text, `None`
/// when it is absent or not visible ASCII) of the form `Bearer {token}`
/// with an access token that is accepted, and goes on with the user the
/// token was issued for. Whether a token is accepted depends on the current time.
pub fn authenticate(cfg: &crate::project::configs::Jwt, path: &str, header: Option<&str>) -> (r: Result<
    AuthDecision,
    crate::project::error::AppError,
>)
    ensures
        spec_is_public_path(path@) ==> r matches Ok(AuthDecision::Public),
        !spec_is_public_path(path@) ==> match header {
            None => r matches Err(e) && crate::project::error::is_api(
                e,
                crate::project::error::UNAUTHORIZED,
                missing_credentials_message(),
            ),
            Some(h) => if h@.len() >= bearer_prefix().len() && h@.subrange(0, bearer_prefix().len() as int)
                == bearer_prefix() {
                match r {
                    Ok(d) => d matches AuthDecision::Authenticated(ctx) && forall|cv: crate::apps::auth::jwt::ClaimsView|
                        #[trigger] crate::apps::auth::jwt::hs256_token(cv, cfg.secret@)
                            == Some(h@.subrange(bearer_prefix().len() as int, h@.len() as int))
                            ==> ctx.user_id == cv.1,
                    Err(e) => crate::project::error::is_api(
                        e,
                        crate::project::error::UNAUTHORIZED,
                        bad_token_message(),
                    ),
                }
            } else {
                r matches Err(e) && crate::project::error::is_api(
                    e,
                    crate::project::error::UNAUTHORIZED,
                    bad_scheme_message(),
                )
            },
        },
{
    if is_public_path(path) {
        return Ok(AuthDecision::Public);
    }
    let h = match header {
        Some(h) => h,
        None => {
            proof { reveal_strlit("缺少认证信息"); }
            return Err(crate::project::error::AppError::api(crate::project::error::UNAUTHORIZED, "缺少认证信息"));
        },
    };
    let v = str_chars(h);
    let plen = "Bearer ".unicode_len();
    if v.len() < plen || !chars_match(&v, 0, plen, "Bearer ") {
        proof { reveal_strlit("认证格式错误"); }
        return Err(crate::project::error::AppError::api(crate::project::error::UNAUTHORIZED, "认证格式错误"));
    }
    let token = h.substring_char(plen, v.len());
    match crate::apps::auth::jwt::verify_access_token(cfg, token) {
        Ok(claims) => Ok(AuthDecision::Authenticated(AuthContext { user_id: claims.sub })),
        Err(_) => {
            proof { reveal_strlit("Token 无效或已过期"); }
            Err(crate::project::error::AppError::api(crate::project::error::UNAUTHORIZED, "Token 无效或已过期"))
        },
    }
}

/// The identity that a request carries, or a missing-credentials answer
/// when the authentication step left none.
pub fn require_auth(ctx: Option<&AuthContext>) -> (r: Result<AuthContext, crate::project::error::AppError>)
    ensures
        match ctx {
            Some(c) => r == Ok::<AuthContext, crate::project::error::AppError>(*c),
            None => r matches Err(e) && crate::project::error::is_api(
                e,
                crate::project::error::UNAUTHORIZED,
                missing_credentials_message(),
            ),
        },
{
    match ctx {
        Some(c) => Ok(c.clone()),
        None => {
            proof { reveal_strlit("缺少认证信息"); }
            Err(crate::project::error::AppError::api(crate::project::error::UNAUTHORIZED, "缺少认证信息"))
        },
    }
}

/// A trailing slash does not change whether a path needs a token.
pub proof fn law_trailing_slash_is_ignored(path: Seq<char>)
    ensures
        spec_is_public_path(path.push('/')) == spec_is_public_path(path),
{
    assert(path.push('/').drop_last() =~= path);
}

} // verus!
