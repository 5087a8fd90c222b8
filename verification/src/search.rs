use vstd::prelude::*;
use crate::error::{AppError, ErrorView, bad_request};
use crate::text::to_owned;

verus! {

/// Query parameters of a full-text search.
#[derive(Debug, Clone)]
pub struct SearchQuery {
    pub q: String,
    pub index: Option<String>,
    pub page: Option<usize>,
    pub per_page: Option<usize>,
}

/// What to ask the search engine.
#[derive(Debug, Clone)]
pub struct SearchPlan {
    pub index: String,
    pub query: String,
    pub page: usize,
    pub per_page: usize,
    pub offset: usize,
}

/// Requested page, defaulting to 1 and never below 1.
pub open spec fn search_page(page: Option<usize>) -> int {
    match page {
        Some(p) => if p < 1 { 1 } else { p as int },
        None => 1,
    }
}

/// Requested page size, defaulting to 20 and capped at 100.
pub open spec fn search_per_page(per_page: Option<usize>) -> int {
    match per_page {
        Some(n) => if n > 100 { 100 } else { n as int },
        None => 20,
    }
}

/// Offset of the first hit of the page.
pub open spec fn search_offset(page: Option<usize>, per_page: Option<usize>) -> int {
    (search_page(page) - 1) * search_per_page(per_page)
}

/// The index searched: `novels` unless another is named.
pub open spec fn search_index(index: Option<Seq<char>>) -> Seq<char> {
    match index {
        Some(i) => i,
        None => "novels"@,
    }
}

impl SearchQuery {
    /// Whether the offset of the requested page fits a `usize`.
    pub open spec fn fits(&self) -> bool {
        search_offset(self.page, self.per_page) <= usize::MAX
    }

    /// Whether the offset of the requested page fits a `usize`.
    pub fn offset_fits(&self) -> (b: bool)
        ensures
            b == self.fits(),
    {
        let page: usize = match self.page {
            Some(p) => if p < 1 { 1 } else { p },
            None => 1,
        };
        let per_page: usize = match self.per_page {
            Some(n) => if n > 100 { 100 } else { n },
            None => 20,
        };
        (page - 1).checked_mul(per_page).is_some()
    }

    /// What to ask the search engine; an empty query is refused with
    /// `BadRequest`.
    pub fn plan(&self) -> (r: Result<SearchPlan, AppError>)
        requires
            self.q@.len() > 0 ==> self.fits(),
        ensures
            self.q@.len() == 0 <==> r is Err,
            r matches Err(e) ==> e@ == ErrorView::BadRequest("Query parameter 'q' is required"@),
            r matches Ok(p) ==> {
                &&& p.index@ == search_index(match self.index { Some(i) => Some(i@), None => None })
                &&& p.query@ == self.q@
                &&& p.page == search_page(self.page)
                &&& p.per_page == search_per_page(self.per_page)
                &&& p.offset == search_offset(self.page, self.per_page)
                &&& p.page >= 1
                &&& p.offset == (p.page - 1) * p.per_page
            },
    {
        if self.q.unicode_len() == 0 {
            return Err(bad_request("Query parameter 'q' is required"));
        }
        let index = match &self.index {
            Some(i) => to_owned(i.as_str()),
            None => to_owned("novels"),
        };
        let page: usize = match self.page {
            Some(p) => if p < 1 { 1 } else { p },
            None => 1,
        };
        let per_page: usize = match self.per_page {
            Some(n) => if n > 100 { 100 } else { n },
            None => 20,
        };
        let offset: usize = (page - 1) * per_page;
        Ok(SearchPlan { index, query: to_owned(self.q.as_str()), page, per_page, offset })
    }
}

/// Search pages tile the hits: a page starts after every hit of the pages
/// before it, so page `k + 1` starts exactly where page `k` ends, whatever
/// page size is asked for; the first page starts at the first hit.
pub proof fn lemma_search_pages_tile(k: usize, per_page: Option<usize>)
    requires
        k >= 1,
        k < usize::MAX,
    ensures
        search_offset(Some(k), per_page) == (k - 1) * search_per_page(per_page),
        search_offset(Some((k + 1) as usize), per_page) == search_offset(Some(k), per_page) + search_per_page(per_page),
        search_offset(None, per_page) == 0,
        search_offset(Some(1), per_page) == 0,
{
    let n = search_per_page(per_page);
    assert((k + 1 - 1) * n == (k - 1) * n + n) by (nonlinear_arith);
    assert(0 * n == 0) by (nonlinear_arith);
    assert(search_page(None) - 1 == 0);
    assert(search_page(Some(1)) - 1 == 0);
}

/// The page window a search gets: the page asked for, never below the
/// first, and the page size asked for, at most 100 hits; 20 hits when no
/// size is asked for.
pub proof fn lemma_search_window_honours_request(page: Option<usize>, per_page: Option<usize>)
    ensures
        search_page(page) >= 1,
        forall|k: usize| page == Some(k) && k >= 1 ==> search_page(page) == k,
        search_per_page(per_page) <= 100,
        forall|n: usize| per_page == Some(n) && n <= 100 ==> search_per_page(per_page) == n,
        forall|n: usize| per_page == Some(n) && n > 100 ==> search_per_page(per_page) == 100,
        per_page is None ==> search_per_page(per_page) == 20,
{
}

} // verus!
