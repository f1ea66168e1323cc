//! Page-based queries and the shapes of paged answers.
use vstd::prelude::*;
use super::error::ValidationErrors;
use super::validation::{
    Validate, FieldErrorView, bare_rule_failure, unless, record_bare, finish, errors_view, validation_answer,
    refused_with,
};

verus! {

/// Page query: page number (from 1) and page size.
pub struct PaginationInput {
    /// Page number, from 1; 1 when the query leaves it out.
    pub page: u64,
    /// Entries per page, from 5 to 100; 10 when the query leaves it out.
    pub page_size: u64,
}

/// The page number that a query without one asks for.
pub fn default_page() -> (r: u64)
    ensures
        r == 1,
{
    1
}

/// The page size that a query without one asks for.
pub fn default_page_size() -> (r: u64)
    ensures
        r == 10,
{
    10
}

impl Default for PaginationInput {
    /// All-zero fields, as a derived `Default` gives (the query defaults
    /// apply only when a query is read).
    fn default() -> (r: Self)
        ensures
            r.page == 0,
            r.page_size == 0,
    {
        PaginationInput { page: 0, page_size: 0 }
    }
}

impl PaginationInput {
    /// The page query read from optional query values, with the defaults
    /// for missing ones.
    pub fn from_query(page: Option<u64>, page_size: Option<u64>) -> (r: Self)
        ensures
            r.page == match page { Some(p) => p, None => 1 },
            r.page_size == match page_size { Some(s) => s, None => 10 },
    {
        let page = match page {
            Some(p) => p,
            None => default_page(),
        };
        let page_size = match page_size {
            Some(s) => s,
            None => default_page_size(),
        };
        PaginationInput { page, page_size }
    }

    /// The index (from 0) of the requested page.
    pub fn page_index(&self) -> (r: u64)
        requires
            self.page >= 1,
        ensures
            r == self.page - 1,
    {
        self.page - 1
    }
}

impl Validate for PaginationInput {
    open spec fn failed_rules(&self) -> Seq<FieldErrorView> {
        unless(self.page >= 1, bare_rule_failure("page"@, "range"@))
            + unless(5 <= self.page_size <= 100, bare_rule_failure("page_size"@, "range"@))
    }

    fn validate(&self) -> (r: Result<(), ValidationErrors>) {
        let mut errs = ValidationErrors::new();
        record_bare(&mut errs, self.page >= 1, "page", "range");
        record_bare(&mut errs, 5 <= self.page_size && self.page_size <= 100, "page_size", "range");
        assert(errors_view(errs.errors@) =~= self.failed_rules());
        finish(errs)
    }
}

/// A page of entries with the total count.
pub struct PagePagination<T> {
    /// The entries of the page.
    pub data: Vec<T>,
    /// Number of entries over all pages.
    pub total: u64,
    /// Page number.
    pub page: u64,
    /// Entries per page.
    pub page_size: u64,
}

/// A slice of entries by offset, with the total count.
pub struct OffsetPagination<T> {
    /// The entries.
    pub data: Vec<T>,
    /// Number of entries in all.
    pub total: u64,
    /// Offset of the first entry.
    pub offset: u64,
    /// Maximum number of entries.
    pub limit: u64,
}

/// A slice of entries by cursor.
pub struct CursorPagination<T> {
    /// The entries.
    pub data: Vec<T>,
    /// Cursor of the next slice, if any.
    pub next_cursor: Option<String>,
    /// Whether more entries follow.
    pub has_more: bool,
}

impl<T> PagePagination<T> {
    /// The answer for a page of a query.
    pub fn new(data: Vec<T>, total: u64, input: &PaginationInput) -> (r: Self)
        ensures
            r.data == data,
            r.total == total,
            r.page == input.page,
            r.page_size == input.page_size,
    {
        PagePagination { data, total, page: input.page, page_size: input.page_size }
    }
}

/// A page query passes exactly when the page is at least 1 and the page
/// size from 5 to 100; each broken rule is among the failures it is refused
/// with.
pub proof fn law_pagination_rules(input: PaginationInput, r: Result<(), ValidationErrors>)
    requires
        validation_answer(input.failed_rules(), r),
    ensures
        (input.page >= 1 && 5 <= input.page_size <= 100) <==> r is Ok,
        input.page < 1 ==> refused_with(r, ("page"@, "range"@, None)),
        !(5 <= input.page_size <= 100) ==> refused_with(r, ("page_size"@, "range"@, None)),
{
    let a = unless(input.page >= 1, bare_rule_failure("page"@, "range"@));
    if r is Err {
        let v = errors_view(r->Err_0.errors@);
        assert(v == input.failed_rules());
        if input.page < 1 {
            assert(v[0] == ("page"@, "range"@, None::<Seq<char>>));
        }
        if !(5 <= input.page_size <= 100) {
            assert(v[a.len() as int] == ("page_size"@, "range"@, None::<Seq<char>>));
        }
    }
}

} // verus!
