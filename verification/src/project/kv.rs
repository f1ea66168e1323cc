//! The key-value store (Redis) as the handlers use it, as a map from keys to
//! values, and what follows from taking values out of it once: a text-message
//! code, a CSRF token and a refresh token's used-mark each serve once.
//! Expiry is left out: each statement holds while the keys involved live.
use vstd::prelude::*;
use crate::project::error::AppError;
use crate::helper::sms::{code_check_outcome, prefixed_key, CODE_PREFIX};
use crate::apps::auth::view::{
    csrf_outcome, first_use_outcome, used_refresh_token_message, CSRF_TOKEN_PREFIX, BLACKLIST_PREFIX,
};
use crate::project::error::{is_api, UNAUTHORIZED};
use crate::apps::auth::oauth2::is_new_link;
use crate::entity::oauth_account::NewOAuthAccount;
use crate::helper::github::OAuthUserInfo;

verus! {

/// The store's contents.
pub type Store = Map<Seq<char>, Seq<char>>;

/// `GETDEL key`: the store without `key`, and the value it held.
pub open spec fn get_del(s: Store, key: Seq<char>) -> (Store, Option<Seq<char>>) {
    (s.remove(key), if s.dom().contains(key) { Some(s[key]) } else { None })
}

/// `SET key value NX`: the value is set only when the key is absent; the
/// flag tells whether it was set.
pub open spec fn set_nx(s: Store, key: Seq<char>, value: Seq<char>) -> (Store, bool) {
    if s.dom().contains(key) { (s, false) } else { (s.insert(key, value), true) }
}

/// A text-message code serves once: after a sign-up took the code for
/// `phone` out of the store, a second sign-up with any code for that phone
/// is refused.
pub proof fn law_sms_code_serves_once(
    s0: Store,
    phone: Seq<char>,
    code: Seq<char>,
    r1: Result<(), AppError>,
    code2: Seq<char>,
    r2: Result<(), AppError>,
)
    requires
        code_check_outcome(get_del(s0, prefixed_key(CODE_PREFIX@, phone)).1, code, r1),
        code_check_outcome(
            get_del(get_del(s0, prefixed_key(CODE_PREFIX@, phone)).0, prefixed_key(CODE_PREFIX@, phone)).1,
            code2,
            r2,
        ),
    ensures
        r2 is Err,
{
}

/// A CSRF token serves once: after a callback took the token `state` out of
/// the store, a replay of the same token is refused.
pub proof fn law_csrf_token_serves_once(
    s0: Store,
    state: Seq<char>,
    provider: Seq<char>,
    r1: Result<(), AppError>,
    r2: Result<(), AppError>,
)
    requires
        csrf_outcome(get_del(s0, CSRF_TOKEN_PREFIX@ + state).1, provider, r1),
        csrf_outcome(get_del(get_del(s0, CSRF_TOKEN_PREFIX@ + state).0, CSRF_TOKEN_PREFIX@ + state).1, provider, r2),
    ensures
        r2 is Err,
{
}

/// A refresh token serves once: once a refresh set its used-mark, setting
/// it again fails, so a later refresh with the same token is refused as
/// used. The mark lasts as long as the token can be accepted
/// (`law_mark_outlives_acceptance`).
pub proof fn law_refresh_mark_serves_once(s0: Store, jti: Seq<char>, r2: Result<(), AppError>)
    requires
        first_use_outcome(set_nx(set_nx(s0, BLACKLIST_PREFIX@ + jti, "1"@).0, BLACKLIST_PREFIX@ + jti, "1"@).1, r2),
    ensures
        !set_nx(set_nx(s0, BLACKLIST_PREFIX@ + jti, "1"@).0, BLACKLIST_PREFIX@ + jti, "1"@).1,
        r2 matches Err(e) && is_api(e, UNAUTHORIZED, used_refresh_token_message()),
{
}

/// The links between outside users and local accounts: provider and user id
/// at the provider, to the local account's id.
pub type Links = Map<(Seq<char>, Seq<char>), i32>;

/// Signing in an outside user: the linked account when there is a link;
/// otherwise a new account `new_id` is made and linked.
pub open spec fn link_or_create(links: Links, provider: Seq<char>, user: Seq<char>, new_id: i32) -> (Links, i32) {
    if links.dom().contains((provider, user)) {
        (links, links[(provider, user)])
    } else {
        (links.insert((provider, user), new_id), new_id)
    }
}

/// Linking is idempotent: signing the same outside user in again gives the
/// same account and makes no new link.
pub proof fn law_linking_is_idempotent(links: Links, provider: Seq<char>, user: Seq<char>, id1: i32, id2: i32)
    ensures
        link_or_create(link_or_create(links, provider, user, id1).0, provider, user, id2)
            == link_or_create(links, provider, user, id1),
{
}

/// The links after storing the link `l`.
pub open spec fn with_link(links: Links, l: NewOAuthAccount) -> Links {
    links.insert((l.provider@, l.provider_user_id@), l.account_id)
}

/// For an outside user without a link, the link that `new_link_for` makes
/// for the new account is the one the model adds, and the sign-in gives
/// that account.
pub proof fn law_new_link_follows_model(
    links: Links,
    account_id: i32,
    provider: Seq<char>,
    info: OAuthUserInfo,
    l: NewOAuthAccount,
)
    requires
        !links.dom().contains((provider, info.provider_user_id@)),
        is_new_link(l, account_id, provider, info),
    ensures
        link_or_create(links, provider, info.provider_user_id@, account_id) == (with_link(links, l), l.account_id),
{
}

/// For an outside user with a link, the sign-in gives the linked account
/// (the one `require_linked_account` hands on) and stores no new link.
pub proof fn law_existing_link_is_used(links: Links, provider: Seq<char>, user: Seq<char>, new_id: i32)
    requires
        links.dom().contains((provider, user)),
    ensures
        link_or_create(links, provider, user, new_id) == (links, links[(provider, user)]),
{
}

} // verus!
