//! Reading a GitHub user: addresses, answers to failed calls, and the
//! user information made from GitHub's answers.
use vstd::prelude::*;
use crate::project::error::{AppError, is_api, UNAUTHORIZED, BAD_GATEWAY};
use crate::text::{decimal, decimal_string};

verus! {

/// GitHub's answer about the user.
pub struct GitHubUserInfo {
    pub id: u64,
    pub login: String,
    pub email: Option<String>,
    pub avatar_url: Option<String>,
    pub name: Option<String>,
}

/// One of the user's e-mail addresses at GitHub.
pub struct GitHubEmail {
    pub email: String,
    pub primary: bool,
}

/// A user as an outside sign-in provider describes them.
pub struct OAuthUserInfo {
    pub provider: String,
    pub provider_user_id: String,
    pub email: Option<String>,
    pub nickname: String,
    pub avatar_url: Option<String>,
}

/// The root of GitHub's API.
pub open spec fn api_root() -> Seq<char> {
    "https://api.github.com"@
}

/// The address of a GitHub API path.
pub fn api_url(path: &str) -> (r: String)
    ensures
        r@ == api_root() + path@,
{
    let mut s = String::from_str("https://api.github.com");
    s.append(path);
    s
}

/// The `Authorization` header for an access token.
pub fn bearer_header(access_token: &str) -> (r: String)
    ensures
        r@ == "Bearer "@ + access_token@,
{
    let mut s = String::from_str("Bearer ");
    s.append(access_token);
    s
}

/// The message of a revoked or expired GitHub authorization.
pub open spec fn revoked_message() -> Seq<char> {
    "OAuth2 授权已失效"@
}

/// The message of a failing GitHub.
pub open spec fn provider_failure_message() -> Seq<char> {
    "OAuth2 提供商服务异常"@
}

/// The answer to a GitHub call that came back with an error status: a 401
/// means the authorization is no longer valid; any other status is a
/// failure of the provider.
pub fn status_error(status: u16) -> (r: AppError)
    ensures
        status == UNAUTHORIZED ==> is_api(r, UNAUTHORIZED, revoked_message()),
        status != UNAUTHORIZED ==> is_api(r, BAD_GATEWAY, provider_failure_message()),
{
    if status == UNAUTHORIZED {
        proof { reveal_strlit("OAuth2 授权已失效"); }
        AppError::api(UNAUTHORIZED, "OAuth2 授权已失效")
    } else {
        proof { reveal_strlit("OAuth2 提供商服务异常"); }
        AppError::api(BAD_GATEWAY, "OAuth2 提供商服务异常")
    }
}

/// Whether a status is a client or server error (400 to 599).
pub open spec fn is_error_status(status: u16) -> bool {
    400 <= status <= 599
}

/// The answer to a GitHub call by its status: none for a status that is not
/// an error (the answer is then read), otherwise the failure `status_error`
/// gives.
pub fn failed_status(status: u16) -> (r: Option<AppError>)
    ensures
        !is_error_status(status) ==> r is None,
        is_error_status(status) && status == UNAUTHORIZED ==> (r matches Some(e) && is_api(e, UNAUTHORIZED, revoked_message())),
        is_error_status(status) && status != UNAUTHORIZED ==> (r matches Some(e) && is_api(e, BAD_GATEWAY, provider_failure_message())),
{
    if 400 <= status && status <= 599 {
        Some(status_error(status))
    } else {
        None
    }
}

/// The first primary address among `emails`, if any.
pub open spec fn first_primary(emails: Seq<GitHubEmail>) -> Option<Seq<char>>
    decreases emails.len(),
{
    if emails.len() == 0 {
        None
    } else if emails[0].primary {
        Some(emails[0].email@)
    } else {
        first_primary(emails.drop_first())
    }
}

/// The user's primary address: the first address marked primary.
pub fn primary_email(emails: &Vec<GitHubEmail>) -> (r: Option<String>)
    ensures
        match r {
            Some(e) => first_primary(emails@) == Some(e@),
            None => first_primary(emails@) is None,
        },
{
    let n = emails.len();
    let mut i: usize = 0;
    assert(emails@.subrange(0, n as int) =~= emails@);
    while i < n
        invariant
            n == emails@.len(),
            i <= n,
            first_primary(emails@) == first_primary(emails@.subrange(i as int, n as int)),
        decreases n - i,
    {
        assert(emails@.subrange(i as int, n as int).drop_first() =~= emails@.subrange(i + 1, n as int));
        if emails[i].primary {
            return Some(emails[i].email.clone());
        }
        i = i + 1;
    }
    None
}

/// Whether GitHub's answer lacks an address, so the primary address has
/// to be asked for.
pub fn needs_primary_email(info: &GitHubUserInfo) -> (r: bool)
    ensures
        r == info.email is None,
{
    info.email.is_none()
}

/// The user information made from GitHub's answers: provider `github`,
/// the numeric id in decimal, the address given with the user or else the
/// primary address, the display name or else the login, and the avatar.
pub fn user_info_from(info: GitHubUserInfo, primary: Option<String>) -> (r: OAuthUserInfo)
    ensures
        r.provider@ == "github"@,
        r.provider_user_id@ == decimal(info.id as nat),
        r.email == match info.email {
            Some(e) => Some(e),
            None => primary,
        },
        r.nickname == match info.name {
            Some(n) => n,
            None => info.login,
        },
        r.avatar_url == info.avatar_url,
{
    let email = match info.email {
        Some(e) => Some(e),
        None => primary,
    };
    let nickname = match info.name {
        Some(n) => n,
        None => info.login,
    };
    OAuthUserInfo {
        provider: String::from_str("github"),
        provider_user_id: decimal_string(info.id),
        email,
        nickname,
        avatar_url: info.avatar_url,
    }
}

} // verus!
