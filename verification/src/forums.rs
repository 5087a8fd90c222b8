use vstd::prelude::*;
use crate::pagination::{paginate_checked, PageWindow, paginate, window_fits, spec_page, spec_per_page, spec_offset};
use crate::slug::{slugify, slug_of, well_formed_slug};
use crate::validation::{Field, Violation, check_length, finish, length_violations};

verus! {

/// Body of a request that opens a forum thread.
#[derive(Debug, Clone)]
pub struct CreateThreadRequest {
    pub category_id: u128,
    pub title: String,
    pub body: String,
}

/// Body of a request that replies to a forum thread.
#[derive(Debug, Clone)]
pub struct CreateReplyRequest {
    pub body: String,
}

/// Query parameters of the thread and reply listings.
#[derive(Debug, Clone)]
pub struct ThreadListQuery {
    pub page: Option<i64>,
    pub per_page: Option<i64>,
}

/// Longest thread title, in characters.
pub const MAX_THREAD_TITLE_LEN: u64 = 500;
/// Longest thread or reply body, in characters.
pub const MAX_POST_BODY_LEN: u64 = 50000;

impl CreateThreadRequest {
    /// The rules a thread must meet: a title of 1 to 500 characters and a
    /// body of 1 to 50000 characters.
    pub open spec fn violations(&self) -> Seq<Violation> {
        length_violations(self.title@, 1, 500, Field::Title)
            + length_violations(self.body@, 1, 50000, Field::Body)
    }

    /// Checks the rules; `Err` lists every broken one.
    pub fn validate(&self) -> (r: Result<(), Vec<Violation>>)
        ensures
            r is Ok <==> self.violations().len() == 0,
            r matches Err(v) ==> v@ == self.violations(),
    {
        let mut out: Vec<Violation> = Vec::new();
        check_length(&mut out, self.title.as_str(), 1, MAX_THREAD_TITLE_LEN, Field::Title);
        check_length(&mut out, self.body.as_str(), 1, MAX_POST_BODY_LEN, Field::Body);
        assert(out@ =~= self.violations());
        finish(out)
    }

    /// The slug a new thread gets: the slug of its title.
    pub fn slug(&self) -> (s: String)
        ensures
            s@ == slug_of(self.title@),
            well_formed_slug(s@),
    {
        slugify(self.title.as_str())
    }
}

impl CreateReplyRequest {
    /// The rules a reply must meet: a body of 1 to 50000 characters.
    pub open spec fn violations(&self) -> Seq<Violation> {
        length_violations(self.body@, 1, 50000, Field::Body)
    }

    /// Checks the rules; `Err` lists every broken one.
    pub fn validate(&self) -> (r: Result<(), Vec<Violation>>)
        ensures
            r is Ok <==> self.violations().len() == 0,
            r matches Err(v) ==> v@ == self.violations(),
    {
        let mut out: Vec<Violation> = Vec::new();
        check_length(&mut out, self.body.as_str(), 1, MAX_POST_BODY_LEN, Field::Body);
        assert(out@ =~= self.violations());
        finish(out)
    }
}

impl ThreadListQuery {
    /// Whether the offset of the requested page fits an `i64`.
    pub fn threads_fit(&self) -> (b: bool)
        ensures
            b == window_fits(self.page, self.per_page, 20, 50),
    {
        paginate_checked(self.page, self.per_page, 20, 50).is_some()
    }

    /// Page window of a category's thread listing: 20 threads per page by
    /// default, at most 50.
    pub fn threads_window(&self) -> (w: PageWindow)
        requires
            window_fits(self.page, self.per_page, 20, 50),
        ensures
            w.page == spec_page(self.page),
            w.per_page == spec_per_page(self.per_page, 20, 50),
            w.offset == spec_offset(self.page, self.per_page, 20, 50),
    {
        paginate(self.page, self.per_page, 20, 50)
    }

    /// Whether the offset of the requested page fits an `i64`.
    pub fn replies_fit(&self) -> (b: bool)
        ensures
            b == window_fits(self.page, self.per_page, 50, 100),
    {
        paginate_checked(self.page, self.per_page, 50, 100).is_some()
    }

    /// Page window of a thread's reply listing: 50 replies per page by
    /// default, at most 100.
    pub fn replies_window(&self) -> (w: PageWindow)
        requires
            window_fits(self.page, self.per_page, 50, 100),
        ensures
            w.page == spec_page(self.page),
            w.per_page == spec_per_page(self.per_page, 50, 100),
            w.offset == spec_offset(self.page, self.per_page, 50, 100),
    {
        paginate(self.page, self.per_page, 50, 100)
    }
}

} // verus!
