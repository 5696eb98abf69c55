//! Pagination: query parameter shapes, the page descriptor, and the ceiling
//! arithmetic behind the page count and the navigation flags.

use crate::model::UserStatus;
use vstd::arithmetic::div_mod::{lemma_fundamental_div_mod, lemma_mod_bound};
use vstd::prelude::*;

verus! {

/// Bare pagination query parameters.
#[derive(Debug)]
pub struct PaginationParams {
    pub page: i64,
    pub page_size: i64,
}

/// Default page number when a query names none.
pub fn default_page() -> (p: i64)
    ensures
        p == 1,
{
    1
}

/// Default page size when a query names none.
pub fn default_page_size() -> (s: i64)
    ensures
        s == 20,
{
    20
}

/// Query parameters of the list operation: pagination plus optional filters.
#[derive(Debug)]
pub struct ListUsersQuery {
    pub page: i64,
    pub page_size: i64,
    pub status: Option<UserStatus>,
    pub search: Option<String>,
}

/// A page of items together with the computed page descriptor.
#[derive(Debug)]
pub struct PaginatedResponse<T> {
    pub items: Vec<T>,
    pub total: i64,
    pub page: i64,
    pub page_size: i64,
    pub pages: i64,
}

/// Number of pages needed for `total` items at `page_size` items per page:
/// the ceiling of `total / page_size`, written with integer arithmetic.
pub open spec fn pages_of(total: int, page_size: int) -> int {
    (total + page_size - 1) / page_size
}

impl<T> PaginatedResponse<T> {
    /// Builds the page descriptor around a page of items. The page bounds are
    /// the caller's responsibility: this constructor reports, it does not
    /// clamp or validate.
    pub fn new(items: Vec<T>, total: i64, page: i64, page_size: i64) -> (r: Self)
        requires
            0 <= total,
            1 <= page_size,
            total + page_size - 1 <= i64::MAX,
        ensures
            r.items == items,
            r.total == total,
            r.page == page,
            r.page_size == page_size,
            r.pages == pages_of(total as int, page_size as int),
    {
        let pages = (total - 1 + page_size) / page_size;
        Self { items, total, page, page_size, pages }
    }

    /// Whether a page after `page` exists.
    pub fn has_next(&self) -> (r: bool)
        ensures
            r == (self.page < self.pages),
    {
        self.page < self.pages
    }

    /// Whether a page before `page` exists.
    pub fn has_prev(&self) -> (r: bool)
        ensures
            r == (self.page > 1),
    {
        self.page > 1
    }
}

/// The page count is the ceiling of `total / page_size`: it covers every item,
/// the count below it misses at least one item, and it is zero exactly when
/// there are no items at all.
pub proof fn lemma_pages_is_ceiling(total: int, page_size: int)
    requires
        0 <= total,
        1 <= page_size,
    ensures
        0 <= pages_of(total, page_size),
        pages_of(total, page_size) * page_size >= total,
        (pages_of(total, page_size) - 1) * page_size < total,
        pages_of(total, page_size) == 0 <==> total == 0,
{
    let q = pages_of(total, page_size);
    let x = total + page_size - 1;
    lemma_fundamental_div_mod(x, page_size);
    lemma_mod_bound(x, page_size);
    let r = x % page_size;
    assert(x == page_size * q + r);
    assert(q * page_size == x - r) by (nonlinear_arith)
        requires
            x == page_size * q + r,
    ;
    assert((q - 1) * page_size == q * page_size - page_size) by (nonlinear_arith);
    assert(q >= 0 && (q >= 1 ==> page_size * q >= page_size)) by (nonlinear_arith)
        requires
            1 <= page_size,
            x == page_size * q + r,
            0 <= r < page_size,
            0 <= x,
    ;
}

/// The navigation flags never mislead: when `has_next` holds the following
/// page is still within `[1, pages]`, when `has_prev` holds the preceding page
/// is still at least 1, and an empty collection reports no next page whatever
/// the requested page was.
pub proof fn lemma_navigation_consistent(total: int, page: int, page_size: int)
    requires
        0 <= total,
        1 <= page_size,
        1 <= page,
    ensures
        page < pages_of(total, page_size) ==> 1 <= page + 1 <= pages_of(total, page_size),
        page > 1 ==> 1 <= page - 1 < page,
        total == 0 ==> !(page < pages_of(total, page_size)),
{
    lemma_pages_is_ceiling(total, page_size);
}

} // verus!
