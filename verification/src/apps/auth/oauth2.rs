//! Sign-in through outside providers: their clients, the authorization
//! address, and how an outside user becomes a local account.
use vstd::prelude::*;
use crate::project::configs::{Oauth2, Oauth2Provider};
use crate::project::error::{AppError, is_api, BAD_REQUEST, INTERNAL_SERVER_ERROR};
use crate::helper::github::OAuthUserInfo;
use crate::entity::account::{NewAccount, AccountUpdate};
use crate::entity::oauth_account::{NewOAuthAccount, OAuthAccountUpdate};
use crate::apps::user::constants::{ClassType, class_number};
use crate::text::str_eq;
use super::jwt::is_uuid_v4_text;
use oauth2::basic::BasicClient;
use oauth2::{AuthUrl, ClientId, ClientSecret, CsrfToken, RedirectUrl, Scope, TokenUrl};

verus! {

/// Whether `url::Url::parse` accepts `s`.
pub uninterp spec fn url_parses(s: Seq<char>) -> bool;

/// Whether a provider's addresses are all accepted.
pub open spec fn provider_urls_parse(p: Oauth2Provider) -> bool {
    url_parses(p.auth_url@) && url_parses(p.token_url@) && url_parses(p.redirect_url@)
}

/// Checks a provider's addresses as building its client does:
/// `oauth2::AuthUrl::new`, `TokenUrl::new` and `RedirectUrl::new`, each of
/// which parses with `url::Url::parse`. The client can be built exactly
/// when all three parse.
#[verifier::external_body]
fn client_buildable(p: &Oauth2Provider) -> (r: bool)
    ensures
        r == (url_parses(p.auth_url@) && url_parses(p.token_url@) && url_parses(p.redirect_url@)),
{
    AuthUrl::new(p.auth_url.clone()).is_ok() && TokenUrl::new(p.token_url.clone()).is_ok()
        && RedirectUrl::new(p.redirect_url.clone()).is_ok()
}

/// The plain values of a list of scopes.
pub open spec fn scope_views(scopes: Seq<String>) -> Seq<Seq<char>> {
    scopes.map_values(|s: String| s@)
}

/// The address that `oauth2`'s `authorize_url(..).url()` renders for a
/// client with this authorization address, client id and redirect address,
/// the scopes added in order, and the CSRF token `state`: the authorization
/// address with `response_type=code`, `client_id`, `state`, `redirect_uri`
/// and (when there are scopes) `scope` appended to its query.
pub uninterp spec fn authorization_address(
    auth_url: Seq<char>,
    client_id: Seq<char>,
    redirect_url: Seq<char>,
    scopes: Seq<Seq<char>>,
    state: Seq<char>,
) -> Seq<char>;

/// Builds the provider's client (`oauth2::basic::BasicClient::new` with its
/// id, secret and authorization address, then its redirect address), calls
/// `authorize_url` on it with a random CSRF token (`CsrfToken::new_random`),
/// adds `scopes`, and hands back the address and the token's secret. `None`
/// exactly when an address does not parse. The token is random; the address
/// is named as a function of the client's addresses and id, the scopes and
/// the token.
#[verifier::external_body]
fn authorize_url(p: &Oauth2Provider, scopes: &Vec<String>) -> (r: Option<(String, String)>)
    ensures
        r is Some == (url_parses(p.auth_url@) && url_parses(p.redirect_url@)),
        r matches Some((url, csrf)) ==> url@ == authorization_address(
            p.auth_url@,
            p.client_id@,
            p.redirect_url@,
            scope_views(scopes@),
            csrf@,
        ),
{
    let auth = AuthUrl::new(p.auth_url.clone()).ok()?;
    let redirect = RedirectUrl::new(p.redirect_url.clone()).ok()?;
    let secret = Some(ClientSecret::new(p.client_secret.clone()));
    let client = BasicClient::new(ClientId::new(p.client_id.clone()), secret, auth, None).set_redirect_uri(redirect);
    let (url, csrf) = client.authorize_url(CsrfToken::new_random).add_scopes(scopes.iter().cloned().map(Scope::new)).url();
    Some((url.to_string(), csrf.secret().clone()))
}

/// The providers whose clients can be built (all their addresses parse),
/// by name.
pub struct OAuth2Clients {
    pub names: Vec<String>,
}

/// The names of the providers whose addresses are all accepted, in order.
pub open spec fn buildable_names(ps: Seq<(String, Oauth2Provider)>) -> Seq<Seq<char>>
    decreases ps.len(),
{
    if ps.len() == 0 {
        Seq::empty()
    } else {
        buildable_names(ps.drop_last()) + if provider_urls_parse(ps.last().1) {
            seq![ps.last().0@]
        } else {
            Seq::empty()
        }
    }
}

/// The names, as plain text.
pub open spec fn client_names(cs: Seq<String>) -> Seq<Seq<char>> {
    cs.map_values(|c: String| c@)
}

/// The first provider named `name`, if any.
pub open spec fn find_provider(ps: Seq<(String, Oauth2Provider)>, name: Seq<char>) -> Option<Oauth2Provider>
    decreases ps.len(),
{
    if ps.len() == 0 {
        None
    } else if ps[0].0@ == name {
        Some(ps[0].1)
    } else {
        find_provider(ps.drop_first(), name)
    }
}

/// The providers whose clients can be built, skipping those whose
/// addresses are not accepted.
pub fn build_oauth2_clients(cfg: &Oauth2) -> (r: OAuth2Clients)
    ensures
        client_names(r.names@) == buildable_names(cfg.providers@),
{
    let mut clients: Vec<String> = Vec::new();
    let n = cfg.providers.len();
    let mut i: usize = 0;
    while i < n
        invariant
            n == cfg.providers@.len(),
            i <= n,
            client_names(clients@) == buildable_names(cfg.providers@.subrange(0, i as int)),
        decreases n - i,
    {
        let ghost pre = cfg.providers@.subrange(0, i as int);
        let ghost next = cfg.providers@.subrange(0, i + 1);
        assert(next.drop_last() =~= pre);
        let name = cfg.providers[i].0.clone();
        if client_buildable(&cfg.providers[i].1) {
            clients.push(name);
        }
        assert(client_names(clients@) =~= buildable_names(next));
        i = i + 1;
    }
    assert(cfg.providers@.subrange(0, n as int) =~= cfg.providers@);
    OAuth2Clients { names: clients }
}

/// The message of an unknown provider, naming it.
pub open spec fn unsupported_provider_message(provider: Seq<char>) -> Seq<char> {
    "不支持的 OAuth2 提供商: "@ + provider
}

/// The message of a provider whose client could not be built.
pub open spec fn client_missing_message() -> Seq<char> {
    "OAuth2 客户端初始化失败"@
}

fn unsupported_provider(provider: &str) -> (r: AppError)
    ensures
        is_api(r, BAD_REQUEST, unsupported_provider_message(provider@)),
{
    let mut s = String::from_str("不支持的 OAuth2 提供商: ");
    s.append(provider);
    AppError::Api(BAD_REQUEST, s)
}

/// The configuration of the provider named `provider`, or a bad request
/// naming it when none is configured.
pub fn get_provider_config<'a>(cfg: &'a Oauth2, provider: &str) -> (r: Result<&'a Oauth2Provider, AppError>)
    ensures
        match find_provider(cfg.providers@, provider@) {
            Some(p) => r matches Ok(q) && *q == p,
            None => r matches Err(e) && is_api(e, BAD_REQUEST, unsupported_provider_message(provider@)),
        },
{
    let n = cfg.providers.len();
    let mut i: usize = 0;
    assert(cfg.providers@.subrange(0, n as int) =~= cfg.providers@);
    while i < n
        invariant
            n == cfg.providers@.len(),
            i <= n,
            find_provider(cfg.providers@, provider@) == find_provider(
                cfg.providers@.subrange(i as int, n as int),
                provider@,
            ),
        decreases n - i,
    {
        assert(cfg.providers@.subrange(i as int, n as int).drop_first() =~= cfg.providers@.subrange(i + 1, n as int));
        if str_eq(cfg.providers[i].0.as_str(), provider) {
            return Ok(&cfg.providers[i].1);
        }
        i = i + 1;
    }
    Err(unsupported_provider(provider))
}

/// The provider named `provider`, for signing in through it: a bad
/// request when no such provider is configured, a server error when its
/// client could not be built.
pub fn get_oauth2_client<'a>(clients: &OAuth2Clients, cfg: &'a Oauth2, provider: &str) -> (r: Result<
    &'a Oauth2Provider,
    AppError,
>)
    ensures
        match find_provider(cfg.providers@, provider@) {
            None => r matches Err(e) && is_api(e, BAD_REQUEST, unsupported_provider_message(provider@)),
            Some(p) => if client_names(clients.names@).contains(provider@) {
                r matches Ok(q) && *q == p
            } else {
                r matches Err(e) && is_api(e, INTERNAL_SERVER_ERROR, client_missing_message())
            },
        },
{
    let p = match get_provider_config(cfg, provider) {
        Ok(p) => p,
        Err(e) => return Err(e),
    };
    let n = clients.names.len();
    let mut i: usize = 0;
    while i < n
        invariant
            n == clients.names@.len(),
            i <= n,
            forall|k: int| 0 <= k < i ==> clients.names@[k]@ != provider@,
            find_provider(cfg.providers@, provider@) == Some(*p),
        decreases n - i,
    {
        if str_eq(clients.names[i].as_str(), provider) {
            assert(client_names(clients.names@)[i as int] == provider@);
            assert(client_names(clients.names@).contains(provider@));
            return Ok(p);
        }
        i = i + 1;
    }
    assert forall|k: int| 0 <= k < client_names(clients.names@).len() implies client_names(clients.names@)[k]
        != provider@ by {
        assert(client_names(clients.names@)[k] == clients.names@[k]@);
    }
    proof { reveal_strlit("OAuth2 客户端初始化失败"); }
    Err(AppError::internal("OAuth2 客户端初始化失败"))
}

/// The authorization address for signing in through the provider named
/// `provider` with its client `client`, asking for the scopes configured
/// for that provider, and the CSRF token that goes with it. A bad request
/// when no such provider is configured; a server error when the client's
/// addresses do not parse.
pub fn generate_auth_url(client: &Oauth2Provider, cfg: &Oauth2, provider: &str) -> (r: Result<
    (String, String),
    AppError,
>)
    ensures
        match find_provider(cfg.providers@, provider@) {
            None => r matches Err(e) && is_api(e, BAD_REQUEST, unsupported_provider_message(provider@)),
            Some(p) => {
                &&& (r is Ok <==> (url_parses(client.auth_url@) && url_parses(client.redirect_url@)))
                &&& (r matches Err(e) ==> is_api(e, INTERNAL_SERVER_ERROR, client_missing_message()))
                &&& (r matches Ok((url, csrf)) ==> url@ == authorization_address(
                    client.auth_url@,
                    client.client_id@,
                    client.redirect_url@,
                    scope_views(p.scopes@),
                    csrf@,
                ))
            },
        },
{
    let p = match get_provider_config(cfg, provider) {
        Ok(p) => p,
        Err(e) => return Err(e),
    };
    match authorize_url(client, &p.scopes) {
        Some(r) => Ok(r),
        None => {
            proof { reveal_strlit("OAuth2 客户端初始化失败"); }
            Err(AppError::internal("OAuth2 客户端初始化失败"))
        },
    }
}

/// Which providers a user can be read from: only `github`; any other is a
/// bad request naming it.
pub fn check_user_info_provider(provider: &str) -> (r: Result<(), AppError>)
    ensures
        provider@ == "github"@ ==> r is Ok,
        provider@ != "github"@ ==> (r matches Err(e) && is_api(
            e,
            BAD_REQUEST,
            unsupported_provider_message(provider@),
        )),
{
    if str_eq(provider, "github") {
        Ok(())
    } else {
        Err(unsupported_provider(provider))
    }
}

/// The message of a link whose local account is gone.
pub open spec fn linked_account_missing_message() -> Seq<char> {
    "关联的本地账户不存在"@
}

/// The local account of a link, or a server error when it is gone.
pub fn require_linked_account<T>(found: Option<T>) -> (r: Result<T, AppError>)
    ensures
        match found {
            Some(v) => r == Ok::<T, AppError>(v),
            None => r matches Err(e) && is_api(e, INTERNAL_SERVER_ERROR, linked_account_missing_message()),
        },
{
    match found {
        Some(v) => Ok(v),
        None => {
            proof { reveal_strlit("关联的本地账户不存在"); }
            Err(AppError::internal("关联的本地账户不存在"))
        },
    }
}

/// The writes for a returning outside user at `now`: the account records
/// the sign-in and takes the provider's address when there is one; the
/// link takes the provider's address when there is one, and always the
/// provider's nickname and avatar.
pub fn returning_user_writes(info: &OAuthUserInfo, now: i64) -> (r: (AccountUpdate, OAuthAccountUpdate))
    ensures
        r.0.last_login_dt == Some(now),
        r.0.email == info.email,
        r.0.nickname is None && r.0.password is None && r.0.gender is None,
        r.0.name is None && r.0.telephone is None && r.0.address is None,
        r.1.email == info.email,
        r.1.nickname == Some(info.nickname),
        r.1.avatar_url == info.avatar_url,
{
    let mut acc = AccountUpdate::empty();
    acc.last_login_dt = Some(now);
    acc.email = info.email.clone();
    let link = OAuthAccountUpdate {
        email: info.email.clone(),
        nickname: Some(info.nickname.clone()),
        avatar_url: info.avatar_url.clone(),
    };
    (acc, link)
}

/// The account for a new outside user signing in at `now`: a fresh public
/// id, the provider's nickname and address, no password (so no password
/// sign-in), an ordinary user.
pub fn new_account_for(info: &OAuthUserInfo, now: i64) -> (r: NewAccount)
    ensures
        is_uuid_v4_text(r.uid@),
        r.nickname == info.nickname,
        r.password@.len() == 0,
        r.name is None,
        r.telephone is None,
        r.email == info.email,
        r.account_type == class_number(ClassType::User),
        r.last_login_dt == Some(now),
        r.gender is None,
        r.address is None,
{
    NewAccount {
        uid: super::jwt::new_uuid(),
        account_type: ClassType::User.as_i16(),
        nickname: info.nickname.clone(),
        password: String::new(),
        name: None,
        gender: None,
        telephone: None,
        email: info.email.clone(),
        address: None,
        last_login_dt: Some(now),
    }
}

/// Whether `l` links the local account `account_id` to the outside user
/// `info` of `provider`, with the user's address, nickname and avatar.
pub open spec fn is_new_link(l: NewOAuthAccount, account_id: i32, provider: Seq<char>, info: OAuthUserInfo) -> bool {
    &&& l.account_id == account_id
    &&& l.provider@ == provider
    &&& l.provider_user_id == info.provider_user_id
    &&& l.email == info.email
    &&& l.nickname == Some(info.nickname)
    &&& l.avatar_url == info.avatar_url
}

/// The link between a new local account and the outside user.
pub fn new_link_for(account_id: i32, provider: &str, info: &OAuthUserInfo) -> (r: NewOAuthAccount)
    ensures
        is_new_link(r, account_id, provider@, *info),
{
    NewOAuthAccount {
        account_id,
        provider: provider.to_string(),
        provider_user_id: info.provider_user_id.clone(),
        email: info.email.clone(),
        nickname: Some(info.nickname.clone()),
        avatar_url: info.avatar_url.clone(),
    }
}

/// Whether no two providers share a name, as in a configuration read from a
/// table of providers by name.
pub open spec fn names_unique(ps: Seq<(String, Oauth2Provider)>) -> bool {
    forall|i: int, j: int| 0 <= i < ps.len() && 0 <= j < ps.len() && i != j ==> ps[i].0@ != ps[j].0@
}

proof fn lemma_found_at(ps: Seq<(String, Oauth2Provider)>, name: Seq<char>, p: Oauth2Provider) -> (i: int)
    requires
        find_provider(ps, name) == Some(p),
    ensures
        0 <= i < ps.len(),
        ps[i].0@ == name,
        ps[i].1 == p,
    decreases ps.len(),
{
    if ps[0].0@ == name {
        0
    } else {
        let k = lemma_found_at(ps.drop_first(), name, p);
        k + 1
    }
}

proof fn lemma_buildable_contains(ps: Seq<(String, Oauth2Provider)>, i: int)
    requires
        0 <= i < ps.len(),
        provider_urls_parse(ps[i].1),
    ensures
        buildable_names(ps).contains(ps[i].0@),
    decreases ps.len(),
{
    let pre = ps.drop_last();
    let tail = if provider_urls_parse(ps.last().1) { seq![ps.last().0@] } else { Seq::<Seq<char>>::empty() };
    assert(buildable_names(ps) == buildable_names(pre) + tail);
    if i == ps.len() - 1 {
        assert(tail[0] == ps[i].0@);
        assert((buildable_names(pre) + tail)[buildable_names(pre).len() as int] == ps[i].0@);
    } else {
        lemma_buildable_contains(pre, i);
        let k = choose|k: int| 0 <= k < buildable_names(pre).len() && buildable_names(pre)[k] == ps[i].0@;
        assert((buildable_names(pre) + tail)[k] == ps[i].0@);
    }
}

/// A configured provider whose addresses all parse has its client built, so
/// `get_oauth2_client` hands it back for its name.
pub proof fn law_built_client_is_found(ps: Seq<(String, Oauth2Provider)>, name: Seq<char>, p: Oauth2Provider)
    requires
        find_provider(ps, name) == Some(p),
        provider_urls_parse(p),
    ensures
        buildable_names(ps).contains(name),
{
    let i = lemma_found_at(ps, name, p);
    lemma_buildable_contains(ps, i);
}

/// With unique names, looking a provider up by name finds the one with that
/// name, as a lookup in a table by name does.
pub proof fn law_lookup_by_unique_name(ps: Seq<(String, Oauth2Provider)>, i: int)
    requires
        names_unique(ps),
        0 <= i < ps.len(),
    ensures
        find_provider(ps, ps[i].0@) == Some(ps[i].1),
    decreases ps.len(),
{
    if i > 0 {
        let rest = ps.drop_first();
        assert(names_unique(rest)) by {
            assert forall|a: int, b: int| 0 <= a < rest.len() && 0 <= b < rest.len() && a != b implies rest[a].0@
                != rest[b].0@ by {
                assert(rest[a] == ps[a + 1] && rest[b] == ps[b + 1]);
            }
        }
        assert(ps[0].0@ != ps[i].0@);
        assert(rest[i - 1] == ps[i]);
        law_lookup_by_unique_name(rest, i - 1);
    }
}

proof fn lemma_buildable_from(ps: Seq<(String, Oauth2Provider)>, name: Seq<char>) -> (i: int)
    requires
        buildable_names(ps).contains(name),
    ensures
        0 <= i < ps.len(),
        ps[i].0@ == name,
        provider_urls_parse(ps[i].1),
    decreases ps.len(),
{
    let pre = ps.drop_last();
    let tail = if provider_urls_parse(ps.last().1) { seq![ps.last().0@] } else { Seq::<Seq<char>>::empty() };
    assert(buildable_names(ps) == buildable_names(pre) + tail);
    let k = choose|k: int| 0 <= k < buildable_names(ps).len() && buildable_names(ps)[k] == name;
    if k < buildable_names(pre).len() {
        assert(buildable_names(pre)[k] == name);
        assert(buildable_names(pre).contains(name));
        let j = lemma_buildable_from(pre, name);
        assert(pre[j] == ps[j]);
        j
    } else {
        assert(tail[k - buildable_names(pre).len()] == name);
        ps.len() - 1
    }
}

/// With unique names, a configured provider has its client built exactly
/// when all its addresses parse; so `get_oauth2_client` hands it back
/// exactly then, and answers with a server error otherwise.
pub proof fn law_client_built_iff_addresses_parse(ps: Seq<(String, Oauth2Provider)>, name: Seq<char>, p: Oauth2Provider)
    requires
        names_unique(ps),
        find_provider(ps, name) == Some(p),
    ensures
        buildable_names(ps).contains(name) <==> provider_urls_parse(p),
{
    if provider_urls_parse(p) {
        law_built_client_is_found(ps, name, p);
    }
    if buildable_names(ps).contains(name) {
        let i = lemma_buildable_from(ps, name);
        law_lookup_by_unique_name(ps, i);
    }
}

} // verus!
