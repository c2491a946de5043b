//! Pagination engine: turns raw caller-supplied `page` and `limit` query
//! values into a validated window of `(page, limit, offset)`, and computes
//! the total page count for a row count.

use vstd::prelude::*;

verus! {

/// A normalized pagination window. `limit` always lies in `[1, 1000]`,
/// `page` is at least 1, and `offset == (page - 1) * limit`.
#[derive(Clone, Copy, Debug, PartialEq, Eq, Structural)]
pub struct PageWindow {
    pub page: i64,
    pub limit: i64,
    pub offset: i64,
}

/// The normalized page: the requested page, defaulting to 1, floored at 1.
pub open spec fn norm_page(page: Option<i64>) -> int {
    let p: int = match page {
        Some(p) => p as int,
        None => 1,
    };
    if p < 1 {
        1
    } else {
        p
    }
}

/// The normalized limit: the requested limit, defaulting to 200,
/// clamped to `[1, 1000]`.
pub open spec fn norm_limit(limit: Option<i64>) -> int {
    let l: int = match limit {
        Some(l) => l as int,
        None => 200,
    };
    if l < 1 {
        1
    } else if l > 1000 {
        1000
    } else {
        l
    }
}

/// `w` is exactly the window that normalizing `page` and `limit` yields.
pub open spec fn window_of(page: Option<i64>, limit: Option<i64>, w: PageWindow) -> bool {
    &&& w.page == norm_page(page)
    &&& w.limit == norm_limit(limit)
    &&& w.offset == (norm_page(page) - 1) * norm_limit(limit)
}

/// Normalize raw caller inputs into a pagination window.
pub fn normalize(page: Option<i64>, limit: Option<i64>) -> (w: PageWindow)
    requires
        (norm_page(page) - 1) * norm_limit(limit) <= i64::MAX,
    ensures
        window_of(page, limit, w),
{
    let p: i64 = match page {
        Some(p) => if p < 1 {
            1
        } else {
            p
        },
        None => 1,
    };
    let l: i64 = match limit {
        Some(l) => if l < 1 {
            1
        } else if l > 1000 {
            1000
        } else {
            l
        },
        None => 200,
    };
    proof {
        assert((p - 1) * l >= 0) by (nonlinear_arith)
            requires
                p >= 1,
                l >= 1,
        ;
    }
    let offset: i64 = (p - 1) * l;
    PageWindow { page: p, limit: l, offset }
}

/// The total number of pages that `total_count` rows fill at `limit` rows a
/// page: 0 for an empty table, otherwise the ceiling of
/// `total_count / limit`.
pub open spec fn total_pages_spec(total_count: int, limit: int) -> int {
    if total_count <= 0 {
        0
    } else {
        (total_count - 1) / limit + 1
    }
}

/// Compute the total page count for a row count.
pub fn total_pages(total_count: i64, limit: i64) -> (r: i64)
    requires
        0 <= total_count,
        1 <= limit,
    ensures
        r == total_pages_spec(total_count as int, limit as int),
{
    if total_count == 0 {
        0
    } else {
        (total_count - 1) / limit + 1
    }
}

/// `total_pages_spec` is the exact ceiling of `total_count / limit`: an empty
/// table has zero pages, and a positive count yields the least page count
/// whose pages hold all the rows.
pub proof fn lemma_total_pages_is_ceiling(total_count: int, limit: int)
    requires
        1 <= limit,
    ensures
        total_pages_spec(0, limit) == 0,
        0 < total_count ==> total_pages_spec(total_count, limit) * limit >= total_count,
        0 < total_count ==> (total_pages_spec(total_count, limit) - 1) * limit < total_count,
{
    if 0 < total_count {
        let q = (total_count - 1) / limit;
        let r = (total_count - 1) % limit;
        vstd::arithmetic::div_mod::lemma_fundamental_div_mod(total_count - 1, limit);
        vstd::arithmetic::div_mod::lemma_mod_bound(total_count - 1, limit);
        assert((q + 1) * limit >= total_count) by (nonlinear_arith)
            requires
                total_count - 1 == limit * q + r,
                0 <= r < limit,
        ;
        assert(q * limit < total_count) by (nonlinear_arith)
            requires
                total_count - 1 == limit * q + r,
                0 <= r < limit,
        ;
    }
}

/// Normalization is idempotent: feeding a normalized window's own page and
/// limit back through normalization reproduces the window unchanged.
pub proof fn lemma_normalize_idempotent(page: Option<i64>, limit: Option<i64>, w: PageWindow)
    requires
        window_of(page, limit, w),
    ensures
        window_of(Some(w.page), Some(w.limit), w),
{
}

/// The first index (into a stable ordering of `total` rows) that the page
/// window of `page` selects under `limit` rows a page.
pub open spec fn page_window_start(total: int, limit: int, page: int) -> int {
    vstd::math::min((page - 1) * limit, total)
}

/// One past the last index that the page window of `page` selects.
pub open spec fn page_window_end(total: int, limit: int, page: int) -> int {
    vstd::math::min((page - 1) * limit + limit, total)
}

/// Two consecutive pages under one limit select adjoining, disjoint index
/// windows, and together they hold `min(total - start, 2 * limit)` rows,
/// counting from the first window's start; for the first two pages that is
/// `min(total, 2 * limit)` rows.
pub proof fn lemma_consecutive_pages_disjoint(total: int, limit: int, page: int)
    requires
        0 <= total,
        1 <= limit,
        1 <= page,
    ensures
        page_window_end(total, limit, page) == page_window_start(total, limit, page + 1),
        page_window_end(total, limit, page + 1) - page_window_start(total, limit, page)
            == vstd::math::min(total - page_window_start(total, limit, page), 2 * limit),
        page == 1 ==> page_window_end(total, limit, page + 1) - page_window_start(
            total,
            limit,
            page,
        ) == vstd::math::min(total, 2 * limit),
{
    let s = (page - 1) * limit;
    assert((page + 1 - 1) * limit == s + limit && (page + 1 - 1) * limit + limit == s + 2 * limit
        && s >= 0 && (page == 1 ==> s == 0)) by (nonlinear_arith)
        requires
            page >= 1,
            limit >= 1,
            s == (page - 1) * limit,
    ;
}

} // verus!
