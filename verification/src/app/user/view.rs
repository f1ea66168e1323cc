//! What the basic user endpoints decide.
use vstd::prelude::*;
use super::schemas::UserListInput;
use crate::error::AppError;

verus! {

/// The kind of account that the list shows.
pub const LISTED_ACCOUNT_TYPE: u8 = 2;
/// Entries per page when none is asked for.
pub const DEFAULT_PAGE_SIZE: u64 = 10;

/// The filters of the list query.
pub struct ListQuery {
    /// Stored number of the kind of account to match exactly.
    pub account_type: u8,
    /// Text that the real name must contain.
    pub name_contains: Option<String>,
    /// Text that the phone number must contain.
    pub telephone_contains: Option<String>,
    /// Entries per page.
    pub page_size: u64,
    /// Index of the page, from 0.
    pub page_index: u64,
    /// Whether entries come newest first (by id, descending).
    pub newest_first: bool,
}

/// Whether the page asked for has a number: page numbers start at 1, and
/// no page means the first.
pub open spec fn page_is_numbered(input: UserListInput) -> bool {
    input.page != Some(0u64)
}

/// The list query for the filters and page: ordinary users only, the
/// name and phone filters as given, 10 entries per page unless another
/// size is asked for, the page index one below the page number (first
/// page when none is asked for). Entries come newest first.
pub fn user_list_query(input: UserListInput) -> (r: ListQuery)
    requires
        page_is_numbered(input),
    ensures
        r.account_type == LISTED_ACCOUNT_TYPE,
        r.name_contains == input.name,
        r.telephone_contains == input.telephone,
        r.newest_first,
        r.page_size == match input.page_size {
            Some(s) => s,
            None => DEFAULT_PAGE_SIZE,
        },
        r.page_index == match input.page {
            Some(p) => (p - 1) as u64,
            None => 0u64,
        },
{
    let page_size = match input.page_size {
        Some(s) => s,
        None => DEFAULT_PAGE_SIZE,
    };
    let page = match input.page {
        Some(p) => p,
        None => 1,
    };
    ListQuery {
        account_type: LISTED_ACCOUNT_TYPE,
        name_contains: input.name,
        telephone_contains: input.telephone,
        page_size,
        page_index: page - 1,
        newest_first: true,
    }
}

/// The message of a missing entry.
pub open spec fn not_found_message() -> Seq<char> {
    "未找到对应数据"@
}

/// The value found, or the failure that a missing entry is answered with.
pub fn require_found<T>(found: Option<T>) -> (r: Result<T, AppError>)
    ensures
        match found {
            Some(v) => r == Ok::<T, AppError>(v),
            None => r matches Err(AppError::Other(m)) && m@ == not_found_message(),
        },
{
    match found {
        Some(v) => Ok(v),
        None => {
            proof { reveal_strlit("未找到对应数据"); }
            Err(AppError::Other(String::from_str("未找到对应数据")))
        },
    }
}

} // verus!
