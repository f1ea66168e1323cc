//! Requests and answers of the basic user endpoints.
use vstd::prelude::*;

verus! {

/// Filters and page of the user list.
pub struct UserListInput {
    /// Part of the real name.
    pub name: Option<String>,
    /// Part of the phone number.
    pub telephone: Option<String>,
    /// Page number, from 1.
    pub page: Option<u64>,
    /// Entries per page.
    pub page_size: Option<u64>,
}

/// One entry of the user list.
pub struct UserListOutput {
    pub id: i32,
    pub nickname: String,
    /// Stored number of the kind of account.
    pub account_type: u8,
    pub name: Option<String>,
    pub gender: u8,
    pub telephone: Option<String>,
}

/// The account asked for.
pub struct UserInput {
    pub id: i32,
}

/// Details of one account.
pub struct UserOutput {
    pub id: i32,
    pub uid: String,
    pub nickname: String,
    pub name: Option<String>,
    pub gender: u8,
    pub telephone: Option<String>,
    pub email: Option<String>,
    pub address: Option<String>,
    pub account_type: u8,
    /// Last sign-in, as a UTC timestamp in seconds.
    pub last_login_at: Option<i64>,
    /// Creation, as a UTC timestamp in seconds.
    pub created_at: i64,
}

} // verus!
