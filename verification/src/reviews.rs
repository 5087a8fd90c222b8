use vstd::prelude::*;
use crate::pagination::{paginate_checked, PageWindow, paginate, window_fits, spec_page, spec_per_page, spec_offset};
use crate::validation::{
    Field, Rule, Violation, check_length, check_opt_length, check_range, finish, length_violations,
    opt_length_violations, opt_view, range_violations,
};

verus! {

/// Body of a request that reviews a novel.
#[derive(Debug, Clone)]
pub struct CreateReviewRequest {
    pub rating: i16,
    pub title: Option<String>,
    pub body: String,
}

/// Body of a request that changes a review; absent fields keep their value.
#[derive(Debug, Clone)]
pub struct UpdateReviewRequest {
    pub rating: Option<i16>,
    pub title: Option<String>,
    pub body: Option<String>,
}

/// Query parameters of a novel's review listing.
#[derive(Debug, Clone)]
pub struct ReviewQuery {
    pub page: Option<i64>,
    pub per_page: Option<i64>,
}

/// Lowest rating.
pub const MIN_RATING: i16 = 1;
/// Highest rating.
pub const MAX_RATING: i16 = 5;
/// Longest review title, in characters.
pub const MAX_REVIEW_TITLE_LEN: u64 = 300;
/// Shortest review body, in characters.
pub const MIN_REVIEW_BODY_LEN: u64 = 10;
/// Longest review body, in characters.
pub const MAX_REVIEW_BODY_LEN: u64 = 10000;

impl CreateReviewRequest {
    /// The rules a review must meet: a rating from 1 to 5; where given, a
    /// title of at most 300 characters; a body of 10 to 10000 characters.
    pub open spec fn violations(&self) -> Seq<Violation> {
        range_violations(self.rating as int, 1, 5, Field::Rating)
            + opt_length_violations(opt_view(self.title), 0, 300, Field::Title)
            + length_violations(self.body@, 10, 10000, Field::Body)
    }

    /// Checks the rules; `Err` lists every broken one.
    pub fn validate(&self) -> (r: Result<(), Vec<Violation>>)
        ensures
            r is Ok <==> self.violations().len() == 0,
            r matches Err(v) ==> v@ == self.violations(),
    {
        let mut out: Vec<Violation> = Vec::new();
        check_range(&mut out, self.rating, MIN_RATING, MAX_RATING, Field::Rating);
        check_opt_length(&mut out, &self.title, 0, MAX_REVIEW_TITLE_LEN, Field::Title);
        check_length(&mut out, self.body.as_str(), MIN_REVIEW_BODY_LEN, MAX_REVIEW_BODY_LEN, Field::Body);
        assert(out@ =~= self.violations());
        finish(out)
    }
}

impl UpdateReviewRequest {
    /// The rules a review change must meet: where given, a rating from 1 to
    /// 5, a title of at most 300 characters and a body of 10 to 10000
    /// characters.
    pub open spec fn violations(&self) -> Seq<Violation> {
        (match self.rating {
            Some(r) => range_violations(r as int, 1, 5, Field::Rating),
            None => Seq::empty(),
        })
            + opt_length_violations(opt_view(self.title), 0, 300, Field::Title)
            + opt_length_violations(opt_view(self.body), 10, 10000, Field::Body)
    }

    /// Checks the rules; `Err` lists every broken one.
    pub fn validate(&self) -> (r: Result<(), Vec<Violation>>)
        ensures
            r is Ok <==> self.violations().len() == 0,
            r matches Err(v) ==> v@ == self.violations(),
    {
        let mut out: Vec<Violation> = Vec::new();
        match self.rating {
            Some(r) => check_range(&mut out, r, MIN_RATING, MAX_RATING, Field::Rating),
            None => {},
        }
        check_opt_length(&mut out, &self.title, 0, MAX_REVIEW_TITLE_LEN, Field::Title);
        check_opt_length(&mut out, &self.body, MIN_REVIEW_BODY_LEN, MAX_REVIEW_BODY_LEN, Field::Body);
        assert(out@ =~= self.violations());
        finish(out)
    }
}

impl ReviewQuery {
    /// Whether the offset of the requested page fits an `i64`.
    pub fn fits(&self) -> (b: bool)
        ensures
            b == window_fits(self.page, self.per_page, 20, 50),
    {
        paginate_checked(self.page, self.per_page, 20, 50).is_some()
    }

    /// Page window of the review listing: 20 reviews per page by default, at
    /// most 50.
    pub fn window(&self) -> (w: PageWindow)
        requires
            window_fits(self.page, self.per_page, 20, 50),
        ensures
            w.page == spec_page(self.page),
            w.per_page == spec_per_page(self.per_page, 20, 50),
            w.offset == spec_offset(self.page, self.per_page, 20, 50),
    {
        paginate(self.page, self.per_page, 20, 50)
    }
}

/// The broken rule a review body of the wrong length yields.
pub open spec fn body_length_violation() -> Violation {
    Violation { field: Field::Body, rule: Rule::Length }
}

/// A review change whose body is given is held to the body rule of a new
/// review: it is refused for its body exactly when the body has fewer than
/// 10 or more than 10000 characters, and a change without a body is never
/// refused for it.
pub proof fn lemma_review_change_body_rule(req: UpdateReviewRequest)
    ensures
        req.violations().contains(body_length_violation())
            <==> (req.body matches Some(b) && !(10 <= b@.len() <= 10000)),
{
    let a = match req.rating {
        Some(r) => range_violations(r as int, 1, 5, Field::Rating),
        None => Seq::empty(),
    };
    let t = opt_length_violations(opt_view(req.title), 0, 300, Field::Title);
    let b = opt_length_violations(opt_view(req.body), 10, 10000, Field::Body);
    let all = req.violations();
    assert(all == a + t + b);
    if req.body matches Some(body) && !(10 <= body@.len() <= 10000) {
        assert(all[all.len() - 1] == body_length_violation());
    }
    if all.contains(body_length_violation()) {
        let i = choose|i: int| 0 <= i < all.len() && all[i] == body_length_violation();
        if i < a.len() {
            assert(all[i] == a[i]);
        } else if i < a.len() + t.len() {
            assert(all[i] == t[i - a.len()]);
        } else {
            assert(all[i] == b[i - a.len() - t.len()]);
        }
    }
}

/// A review's body is judged the same when it is written and when it is
/// changed: a body breaks the rule in a new review exactly when it breaks
/// it in a change.
pub proof fn lemma_review_body_rule_same_on_create_and_update(c: CreateReviewRequest, u: UpdateReviewRequest)
    requires
        u.body == Some(c.body),
    ensures
        c.violations().contains(body_length_violation()) <==> u.violations().contains(body_length_violation()),
{
    lemma_review_change_body_rule(u);
    let a = range_violations(c.rating as int, 1, 5, Field::Rating);
    let t = opt_length_violations(opt_view(c.title), 0, 300, Field::Title);
    let b = length_violations(c.body@, 10, 10000, Field::Body);
    let all = c.violations();
    assert(all == a + t + b);
    if !(10 <= c.body@.len() <= 10000) {
        assert(all[all.len() - 1] == body_length_violation());
    }
    if all.contains(body_length_violation()) {
        let i = choose|i: int| 0 <= i < all.len() && all[i] == body_length_violation();
        if i < a.len() {
            assert(all[i] == a[i]);
        } else if i < a.len() + t.len() {
            assert(all[i] == t[i - a.len()]);
        } else {
            assert(all[i] == b[i - a.len() - t.len()]);
        }
    }
}

/// A change that gives every field of a review is judged exactly as a new
/// review with those fields is: the same rules, broken in the same order;
/// and a change that gives no field breaks none.
pub proof fn lemma_review_change_judged_like_new_review(c: CreateReviewRequest, u: UpdateReviewRequest)
    ensures
        (u.rating == Some(c.rating) && u.title == c.title && u.body == Some(c.body))
            ==> u.violations() == c.violations(),
        (u.rating is None && u.title is None && u.body is None) ==> u.violations().len() == 0,
{
    if u.rating is None && u.title is None && u.body is None {
        assert(u.violations() =~= Seq::<Violation>::empty());
    }
}

} // verus!
