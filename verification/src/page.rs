//! Page arithmetic over an offset, a page size and a hit count.

use vstd::prelude::*;
use crate::error::Error;

verus! {

/// The page on which the item at `offset` stands, counted from one. The
/// quotient is rounded toward zero, so every negative offset short of one
/// page size stands on the first page too.
pub open spec fn page_of(offset: int, limit: int) -> int
    recommends
        limit > 0,
{
    if offset >= 0 {
        offset / limit + 1
    } else {
        1 - (-offset) / limit
    }
}

/// The number of pages of `limit` items that `total_hits` items fill.
pub open spec fn pages_for(total_hits: int, limit: int) -> int
    recommends
        total_hits >= 0,
        limit > 0,
{
    (total_hits + limit - 1) / limit
}

/// Page number and page count of a result window.
#[derive(Clone, Copy, Debug, PartialEq, Eq, Structural)]
pub struct Pagination {
    /// Counted from one. Wide enough for every offset and page size.
    pub page: i128,
    pub total_pages: u32,
}

/// Computes the page of `offset` and the number of pages for `total_hits`.
///
/// A page size of zero or less is refused, so no division by zero is ever
/// attempted.
pub fn paginate(offset: i64, limit: i64, total_hits: u32) -> (r: Result<Pagination, Error>)
    ensures
        limit <= 0 <==> r is Err,
        r is Err ==> r->Err_0 is InvalidLimit,
        r is Ok ==> r->Ok_0.page == page_of(offset as int, limit as int),
        r is Ok ==> r->Ok_0.total_pages == pages_for(total_hits as int, limit as int),
{
    if limit <= 0 {
        return Err(Error::InvalidLimit);
    }
    let wide_offset: i128 = offset as i128;
    let wide_limit: i128 = limit as i128;
    let page: i128 = wide_offset / wide_limit + 1;
    let hits: u64 = total_hits as u64;
    let size: u64 = limit as u64;
    let pages: u64 = (hits + size - 1) / size;
    proof {
        lemma_page_count(total_hits as int, limit as int);
    }
    Ok(Pagination { page, total_pages: pages as u32 })
}

/// The page count is the hit count divided by the page size and rounded up:
/// that many pages hold every hit, and one page fewer would not. It never
/// exceeds the hit count, and it is zero if and only if there is no hit.
pub proof fn lemma_page_count(total_hits: int, limit: int)
    requires
        total_hits >= 0,
        limit > 0,
    ensures
        0 <= pages_for(total_hits, limit) <= total_hits,
        pages_for(total_hits, limit) * limit >= total_hits,
        (pages_for(total_hits, limit) - 1) * limit < total_hits,
        pages_for(total_hits, limit) == 0 <==> total_hits == 0,
{
    let pages = (total_hits + limit - 1) / limit;
    assert(0 <= pages <= total_hits && pages * limit >= total_hits && (pages - 1) * limit
        < total_hits && (pages == 0 <==> total_hits == 0)) by (nonlinear_arith)
        requires
            total_hits >= 0,
            limit > 0,
            pages == (total_hits + limit - 1) / limit,
    ;
}

/// The first item stands on the first page, and no item of a window that
/// starts at or after it stands on an earlier one.
pub proof fn lemma_page_at_least_one(offset: int, limit: int)
    requires
        offset >= 0,
        limit > 0,
    ensures
        page_of(offset, limit) >= 1,
        (page_of(offset, limit) - 1) * limit <= offset < page_of(offset, limit) * limit,
{
    let quotient = offset / limit;
    assert(quotient >= 0 && quotient * limit <= offset < (quotient + 1) * limit)
        by (nonlinear_arith)
        requires
            offset >= 0,
            limit > 0,
            quotient == offset / limit,
    ;
}

} // verus!
