use vstd::prelude::*;
use crate::pagination::{paginate_checked, PageWindow, paginate, window_fits, spec_page, spec_per_page, spec_offset};

verus! {

/// Query parameters of the bookmark and reading-history listings.
#[derive(Debug, Clone, Copy)]
pub struct PaginationQuery {
    pub page: Option<i64>,
    pub per_page: Option<i64>,
}

/// Body of a request that records how far a user has read a novel.
#[derive(Debug, Clone, Copy)]
pub struct UpdateReadingHistoryRequest {
    pub novel_id: u128,
    pub chapter_id: u128,
    pub chapter_number: i32,
}

impl PaginationQuery {
    /// Whether the offset of the requested page fits an `i64`.
    pub fn fits(&self) -> (b: bool)
        ensures
            b == window_fits(self.page, self.per_page, 20, 100),
    {
        paginate_checked(self.page, self.per_page, 20, 100).is_some()
    }

    /// Page window of the bookmark and reading-history listings: 20 entries
    /// per page by default, at most 100.
    pub fn window(&self) -> (w: PageWindow)
        requires
            window_fits(self.page, self.per_page, 20, 100),
        ensures
            w.page == spec_page(self.page),
            w.per_page == spec_per_page(self.per_page, 20, 100),
            w.offset == spec_offset(self.page, self.per_page, 20, 100),
    {
        paginate(self.page, self.per_page, 20, 100)
    }
}

} // verus!
