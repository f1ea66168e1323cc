//! What the user endpoints decide: list filters, new accounts, changes to
//! the current account, and missing accounts.
use vstd::prelude::*;
use super::constants::{ClassType, GenderType, class_number, gender_number};
use super::schemas::{UserListInput, UserCreate, UserPatch};
use crate::entity::account::{NewAccount, AccountUpdate};
use crate::helper::crypto::{hash_password, hashed_from};
use crate::apps::auth::jwt::{new_uuid, is_uuid_v4_text};
use crate::project::error::{AppError, is_api, internal_message, INTERNAL_SERVER_ERROR, NOT_FOUND};
use crate::project::pagination::PaginationInput;

verus! {

/// The filters of the user list query.
pub struct UserListFilter {
    /// Stored number of the kind of account to match exactly.
    pub account_type: Option<i16>,
    /// Text that the real name must contain.
    pub name_contains: Option<String>,
    /// Text that the phone number must contain.
    pub telephone_contains: Option<String>,
    /// Whether entries come newest first (by id, descending).
    pub newest_first: bool,
}

/// The plain values of an optional kind of account.
pub open spec fn class_filter(c: Option<ClassType>) -> Option<i16> {
    match c {
        Some(c) => Some(class_number(c)),
        None => None,
    }
}

/// The list query for the filters and page: the filters as given (the
/// kind by its stored number), the page size, and the index of the page
/// from 0. Entries come newest first.
pub fn user_list_query(input: UserListInput, pagination: &PaginationInput) -> (r: (UserListFilter, u64, u64))
    requires
        pagination.page >= 1,
    ensures
        r.0.account_type == class_filter(input.account_type),
        r.0.name_contains == input.name,
        r.0.telephone_contains == input.telephone,
        r.0.newest_first,
        r.1 == pagination.page_size,
        r.2 == pagination.page - 1,
{
    let account_type = match input.account_type {
        Some(c) => Some(c.as_i16()),
        None => None,
    };
    (
        UserListFilter {
            account_type,
            name_contains: input.name,
            telephone_contains: input.telephone,
            newest_first: true,
        },
        pagination.page_size,
        pagination.page_index(),
    )
}

/// The stored number of an optional gender: 0 when none is given.
pub open spec fn gender_or_zero(g: Option<GenderType>) -> i16 {
    match g {
        Some(g) => gender_number(g),
        None => 0,
    }
}

/// The message of a missing account.
pub open spec fn user_missing_message() -> Seq<char> {
    "用户不存在"@
}

/// The account for a new user: a fresh public id, the password hashed, the
/// gender by its number (0 when not given), an ordinary user. A failure
/// to hash is answered as a server error.
pub fn plan_user_create(input: UserCreate) -> (r: Result<NewAccount, AppError>)
    ensures
        match r {
            Ok(a) => {
                &&& is_uuid_v4_text(a.uid@)
                &&& a.account_type == class_number(ClassType::User)
                &&& a.nickname == input.nickname
                &&& hashed_from(input.password@, a.password@)
                &&& a.name == input.name
                &&& a.gender == Some(gender_or_zero(input.gender))
                &&& a.telephone == input.telephone
                &&& a.email == input.email
                &&& a.address == input.address
                &&& a.last_login_dt is None
            },
            Err(e) => is_api(e, INTERNAL_SERVER_ERROR, internal_message()),
        },
{
    let hashed = match hash_password(input.password.as_str()) {
        Ok(h) => h,
        Err(e) => return Err(e),
    };
    let gender = match input.gender {
        Some(g) => g.as_i16(),
        None => 0,
    };
    Ok(NewAccount {
        uid: new_uuid(),
        account_type: ClassType::User.as_i16(),
        nickname: input.nickname,
        password: hashed,
        name: input.name,
        gender: Some(gender),
        telephone: input.telephone,
        email: input.email,
        address: input.address,
        last_login_dt: None,
    })
}

/// The value found, or a not-found answer for the account.
pub fn require_user<T>(found: Option<T>) -> (r: Result<T, AppError>)
    ensures
        match found {
            Some(v) => r == Ok::<T, AppError>(v),
            None => r matches Err(e) && is_api(e, NOT_FOUND, user_missing_message()),
        },
{
    match found {
        Some(v) => Ok(v),
        None => {
            proof { reveal_strlit("用户不存在"); }
            Err(AppError::api(NOT_FOUND, "用户不存在"))
        },
    }
}

/// The write that a change request makes: each given field is set (the
/// password hashed, the gender by its number); absent fields are left
/// alone. A failure to hash is answered as a server error.
pub fn plan_user_patch(data: UserPatch) -> (r: Result<AccountUpdate, AppError>)
    ensures
        match r {
            Ok(u) => {
                &&& u.nickname == data.nickname
                &&& match data.password {
                    Some(p) => u.password matches Some(h) && hashed_from(p@, h@),
                    None => u.password is None,
                }
                &&& u.gender == match data.gender {
                    Some(g) => Some(gender_number(g)),
                    None => None::<i16>,
                }
                &&& u.name == data.name
                &&& u.telephone == data.telephone
                &&& u.email == data.email
                &&& u.address == data.address
                &&& u.last_login_dt is None
            },
            Err(e) => data.password is Some && is_api(e, INTERNAL_SERVER_ERROR, internal_message()),
        },
{
    let password = match &data.password {
        Some(p) => match hash_password(p.as_str()) {
            Ok(h) => Some(h),
            Err(e) => return Err(e),
        },
        None => None,
    };
    let gender = match data.gender {
        Some(g) => Some(g.as_i16()),
        None => None,
    };
    Ok(AccountUpdate {
        nickname: data.nickname,
        password,
        gender,
        name: data.name,
        telephone: data.telephone,
        email: data.email,
        address: data.address,
        last_login_dt: None,
    })
}

} // verus!
