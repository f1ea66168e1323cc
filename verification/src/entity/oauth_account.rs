//! The link between a local account and an account at an outside
//! sign-in provider.
use vstd::prelude::*;
use super::soft_delete::Timestamps;

verus! {

/// A stored link. At most one link is meant per provider and provider
/// user id.
pub struct Model {
    pub id: i32,
    /// The local account.
    pub account_id: i32,
    /// The provider: `github`, `google`, ...
    pub provider: String,
    /// The user's id at the provider.
    pub provider_user_id: String,
    /// The user's e-mail at the provider.
    pub email: Option<String>,
    /// The user's nickname at the provider.
    pub nickname: Option<String>,
    /// The user's avatar at the provider.
    pub avatar_url: Option<String>,
    pub times: Timestamps,
}

/// A new link to insert.
pub struct NewOAuthAccount {
    pub account_id: i32,
    pub provider: String,
    pub provider_user_id: String,
    pub email: Option<String>,
    pub nickname: Option<String>,
    pub avatar_url: Option<String>,
}

/// A write to a stored link: `email` is set when `Some`; `nickname` and
/// `avatar_url` are always set.
pub struct OAuthAccountUpdate {
    pub email: Option<String>,
    pub nickname: Option<String>,
    pub avatar_url: Option<String>,
}

} // verus!
