use vstd::prelude::*;

verus! {

/// The window of rows that one page of a listing covers.
#[derive(Debug, Clone, Copy, PartialEq, Eq)]
pub struct PageWindow {
    pub page: i64,
    pub per_page: i64,
    pub offset: i64,
}

/// Requested page number, defaulting to 1 and never below 1.
pub open spec fn spec_page(page: Option<i64>) -> int {
    match page {
        Some(p) => if p < 1 { 1 } else { p as int },
        None => 1,
    }
}

/// Requested page size, defaulting to `default` and capped at `max`.
pub open spec fn spec_per_page(per_page: Option<i64>, default: i64, max: i64) -> int {
    let n = match per_page {
        Some(n) => n,
        None => default,
    };
    if n > max { max as int } else { n as int }
}

/// Offset of the first row of the window.
pub open spec fn spec_offset(page: Option<i64>, per_page: Option<i64>, default: i64, max: i64) -> int {
    (spec_page(page) - 1) * spec_per_page(per_page, default, max)
}

/// Whether the offset of the window fits an `i64`.
pub open spec fn window_fits(page: Option<i64>, per_page: Option<i64>, default: i64, max: i64) -> bool {
    i64::MIN <= spec_offset(page, per_page, default, max) <= i64::MAX
}

/// Computes the page window of a listing from the optional `page` and
/// `per_page` query parameters: the page defaults to 1 and is raised to 1,
/// the page size defaults to `default` and is capped at `max`, and the
/// offset is `(page - 1) * per_page`.
pub fn paginate(page: Option<i64>, per_page: Option<i64>, default: i64, max: i64) -> (w: PageWindow)
    requires
        window_fits(page, per_page, default, max),
    ensures
        w.page == spec_page(page),
        w.per_page == spec_per_page(per_page, default, max),
        w.offset == spec_offset(page, per_page, default, max),
{
    let p: i64 = match page {
        Some(p) => if p < 1 { 1 } else { p },
        None => 1,
    };
    let requested: i64 = match per_page {
        Some(n) => n,
        None => default,
    };
    let n: i64 = if requested > max { max } else { requested };
    let offset: i64 = (p - 1) * n;
    PageWindow { page: p, per_page: n, offset }
}

/// Same window as [`paginate`], or `None` where its offset would not fit an
/// `i64`.
pub fn paginate_checked(page: Option<i64>, per_page: Option<i64>, default: i64, max: i64) -> (w: Option<PageWindow>)
    ensures
        w is None <==> !window_fits(page, per_page, default, max),
        w matches Some(w) ==> {
            &&& w.page == spec_page(page)
            &&& w.per_page == spec_per_page(per_page, default, max)
            &&& w.offset == spec_offset(page, per_page, default, max)
        },
{
    let p: i64 = match page {
        Some(p) => if p < 1 { 1 } else { p },
        None => 1,
    };
    let requested: i64 = match per_page {
        Some(n) => n,
        None => default,
    };
    let n: i64 = if requested > max { max } else { requested };
    match (p - 1).checked_mul(n) {
        Some(_) => Some(paginate(page, per_page, default, max)),
        None => None,
    }
}

/// Every window starts at page 1 or later and is never wider than the cap;
/// with a non-negative page size its offset is never negative.
pub proof fn lemma_window_bounds(page: Option<i64>, per_page: Option<i64>, default: i64, max: i64)
    ensures
        spec_page(page) >= 1,
        spec_per_page(per_page, default, max) <= max,
        spec_per_page(per_page, default, max) >= 0 ==> spec_offset(page, per_page, default, max) >= 0,
{
    let p = spec_page(page);
    let n = spec_per_page(per_page, default, max);
    if n >= 0 {
        assert((p - 1) * n >= 0) by (nonlinear_arith)
            requires p >= 1, n >= 0;
    }
}

/// Consecutive pages are adjacent: page `p + 1` starts exactly where page
/// `p` ends.
pub proof fn lemma_next_page_follows(p: i64, per_page: Option<i64>, default: i64, max: i64)
    requires
        1 <= p < i64::MAX,
    ensures
        spec_offset(Some((p + 1) as i64), per_page, default, max)
            == spec_offset(Some(p), per_page, default, max) + spec_per_page(per_page, default, max),
{
    let n = spec_per_page(per_page, default, max);
    assert(p * n == (p - 1) * n + n) by (nonlinear_arith);
}

/// With a positive page size, the windows of two different pages never
/// overlap: an earlier page ends at or before a later page starts.
pub proof fn lemma_pages_disjoint(p: i64, q: i64, per_page: Option<i64>, default: i64, max: i64)
    requires
        1 <= p < q,
        spec_per_page(per_page, default, max) > 0,
    ensures
        spec_offset(Some(p), per_page, default, max) + spec_per_page(per_page, default, max)
            <= spec_offset(Some(q), per_page, default, max),
{
    let n = spec_per_page(per_page, default, max);
    assert((p - 1) * n + n <= (q - 1) * n) by (nonlinear_arith)
        requires p < q, n > 0;
}

/// A value bound to a placeholder of a listing query.
#[derive(Debug, Clone, PartialEq, Eq)]
pub enum ListBind {
    Int(i64),
    Text(String),
}

/// One page of a listing together with the total number of rows.
#[derive(Debug, Clone, PartialEq, Eq)]
pub struct PaginatedResponse<T> {
    pub data: Vec<T>,
    pub total: i64,
    pub page: i64,
    pub per_page: i64,
}

impl<T> PaginatedResponse<T> {
    /// Wraps the rows of a window and the total row count.
    pub fn new(data: Vec<T>, total: i64, window: PageWindow) -> (r: Self)
        ensures
            r.data@ == data@,
            r.total == total,
            r.page == window.page,
            r.per_page == window.per_page,
    {
        PaginatedResponse { data, total, page: window.page, per_page: window.per_page }
    }
}

} // verus!
