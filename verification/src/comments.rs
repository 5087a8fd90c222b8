use vstd::prelude::*;
use crate::error::{AppError, ErrorView, bad_request};
use crate::pagination::{paginate_checked, PageWindow, paginate, window_fits, spec_page, spec_per_page, spec_offset};
use crate::responses::Missing;
use crate::validation::{Field, Violation, check_length, finish, length_violations};

verus! {

/// Body of a request that comments on a novel, chapter or review.
#[derive(Debug, Clone)]
pub struct CreateCommentRequest {
    pub entity_type: String,
    pub entity_id: u128,
    pub parent_id: Option<u128>,
    pub body: String,
}

/// Query parameters of the comment listing of one entity.
#[derive(Debug, Clone)]
pub struct CommentQuery {
    pub entity_type: String,
    pub entity_id: u128,
    pub page: Option<i64>,
    pub per_page: Option<i64>,
}

/// Longest comment body, in characters.
pub const MAX_COMMENT_BODY_LEN: u64 = 5000;

/// Deepest nesting of a reply under top-level comments.
pub const MAX_COMMENT_DEPTH: i16 = 5;

impl CreateCommentRequest {
    /// The rules a comment must meet: a body of 1 to 5000 characters.
    pub open spec fn violations(&self) -> Seq<Violation> {
        length_violations(self.body@, 1, 5000, Field::Body)
    }

    /// Checks the rules; `Err` lists every broken one.
    pub fn validate(&self) -> (r: Result<(), Vec<Violation>>)
        ensures
            r is Ok <==> self.violations().len() == 0,
            r matches Err(v) ==> v@ == self.violations(),
    {
        let mut out: Vec<Violation> = Vec::new();
        check_length(&mut out, self.body.as_str(), 1, MAX_COMMENT_BODY_LEN, Field::Body);
        assert(out@ =~= self.violations());
        finish(out)
    }
}

impl CommentQuery {
    /// Whether the offset of the requested page fits an `i64`.
    pub fn fits(&self) -> (b: bool)
        ensures
            b == window_fits(self.page, self.per_page, 50, 100),
    {
        paginate_checked(self.page, self.per_page, 50, 100).is_some()
    }

    /// Page window of the comment listing: 50 comments per page by default,
    /// at most 100.
    pub fn window(&self) -> (w: PageWindow)
        requires
            window_fits(self.page, self.per_page, 50, 100),
        ensures
            w.page == spec_page(self.page),
            w.per_page == spec_per_page(self.per_page, 50, 100),
            w.offset == spec_offset(self.page, self.per_page, 50, 100),
    {
        paginate(self.page, self.per_page, 50, 100)
    }
}

/// What the lookup of a new comment's parent found.
#[derive(Debug, Clone, Copy, PartialEq, Eq)]
pub enum ParentDepth {
    /// The comment is a top-level comment.
    NoParent,
    /// The parent comment does not exist.
    ParentMissing,
    /// The parent comment exists at this depth.
    Parent(i16),
}

/// Depth of a new comment: 0 at the top level, one more than its parent's
/// otherwise; a missing parent is `NotFound`, and a parent already at the
/// deepest level refuses replies with `BadRequest`.
pub fn comment_depth(parent: ParentDepth) -> (r: Result<i16, AppError>)
    ensures
        parent == ParentDepth::NoParent ==> r == Ok::<i16, AppError>(0),
        parent == ParentDepth::ParentMissing ==> (r matches Err(e) && e@ == ErrorView::NotFound(Missing::ParentComment.spec_message())),
        parent matches ParentDepth::Parent(d) ==> (if d >= 5 {
            r matches Err(e) && e@ == ErrorView::BadRequest("Maximum comment depth reached"@)
        } else {
            r == Ok::<i16, AppError>((d + 1) as i16)
        }),
        r matches Ok(d) ==> d <= MAX_COMMENT_DEPTH,
{
    match parent {
        ParentDepth::NoParent => Ok(0),
        ParentDepth::ParentMissing => Err(Missing::ParentComment.error()),
        ParentDepth::Parent(d) => {
            if d >= MAX_COMMENT_DEPTH {
                Err(bad_request("Maximum comment depth reached"))
            } else {
                Ok(d + 1)
            }
        },
    }
}

/// The depth `comment_depth` gives a reply to a parent at depth `parent`,
/// if it accepts the reply.
pub open spec fn accepted_reply_depth(parent: i16) -> Option<i16> {
    if parent >= 5 { None } else { Some((parent + 1) as i16) }
}

/// Comments nest at most five levels deep: along any chain of replies that
/// starts at a top-level comment and in which each reply was accepted under
/// its predecessor, the `i`-th comment has depth `i`, so a chain holds at
/// most six comments.
pub proof fn lemma_reply_chain_depth(depths: Seq<i16>)
    requires
        depths.len() > 0,
        depths[0] == 0,
        forall|i: int| 0 <= i < depths.len() - 1 ==> accepted_reply_depth(#[trigger] depths[i]) == Some(depths[i + 1]),
    ensures
        forall|i: int| 0 <= i < depths.len() ==> #[trigger] depths[i] == i,
        depths.len() <= MAX_COMMENT_DEPTH + 1,
    decreases depths.len(),
{
    if depths.len() > 1 {
        let prefix = depths.drop_last();
        assert forall|i: int| 0 <= i < prefix.len() - 1 implies accepted_reply_depth(#[trigger] prefix[i]) == Some(prefix[i + 1]) by {
            assert(prefix[i] == depths[i]);
            assert(prefix[i + 1] == depths[i + 1]);
        }
        lemma_reply_chain_depth(prefix);
        let k = depths.len() - 2;
        assert(prefix[k] == depths[k]);
        assert(accepted_reply_depth(depths[k]) == Some(depths[k + 1]));
        assert forall|i: int| 0 <= i < depths.len() implies #[trigger] depths[i] == i by {
            if i < depths.len() - 1 {
                assert(prefix[i] == depths[i]);
            }
        }
    }
}

} // verus!
