use vstd::prelude::*;
use crate::error::{AppError, ErrorView, conflict, not_found};

verus! {

/// Something a request asked for that is not there.
#[derive(Debug, Clone, Copy, PartialEq, Eq)]
pub enum Missing {
    Novel,
    NovelOrUnauthorized,
    Chapter,
    Thread,
    Report,
    User,
    Bookmark,
    ParentComment,
    CommentOrUnauthorized,
    ReviewOrUnauthorized,
}

impl Missing {
    /// The message answered with `NotFound`.
    pub open spec fn spec_message(self) -> Seq<char> {
        match self {
            Missing::Novel => "Novel not found"@,
            Missing::NovelOrUnauthorized => "Novel not found or unauthorized"@,
            Missing::Chapter => "Chapter not found"@,
            Missing::Thread => "Thread not found"@,
            Missing::Report => "Report not found"@,
            Missing::User => "User not found"@,
            Missing::Bookmark => "Bookmark not found"@,
            Missing::ParentComment => "Parent comment not found"@,
            Missing::CommentOrUnauthorized => "Comment not found or unauthorized"@,
            Missing::ReviewOrUnauthorized => "Review not found or unauthorized"@,
        }
    }

    /// The message answered with `NotFound`.
    pub fn message(&self) -> (s: &'static str)
        ensures
            s@ == self.spec_message(),
    {
        match self {
            Missing::Novel => "Novel not found",
            Missing::NovelOrUnauthorized => "Novel not found or unauthorized",
            Missing::Chapter => "Chapter not found",
            Missing::Thread => "Thread not found",
            Missing::Report => "Report not found",
            Missing::User => "User not found",
            Missing::Bookmark => "Bookmark not found",
            Missing::ParentComment => "Parent comment not found",
            Missing::CommentOrUnauthorized => "Comment not found or unauthorized",
            Missing::ReviewOrUnauthorized => "Review not found or unauthorized",
        }
    }

    /// The `NotFound` error about this.
    pub fn error(&self) -> (e: AppError)
        ensures
            e@ == ErrorView::NotFound(self.spec_message()),
    {
        not_found(self.message())
    }
}

/// A uniqueness rule that an insert can break.
#[derive(Debug, Clone, Copy, PartialEq, Eq)]
pub enum Duplicate {
    /// Two novels with one slug.
    NovelSlug,
    /// Two chapters of a novel with one number.
    ChapterNumber,
    /// Two reviews of a novel by one user.
    Review,
    /// Two users with one username or e-mail address.
    UserIdentity,
}

impl Duplicate {
    /// The message answered with `Conflict`.
    pub open spec fn spec_message(self) -> Seq<char> {
        match self {
            Duplicate::NovelSlug => "Novel with this slug already exists"@,
            Duplicate::ChapterNumber => "Chapter number already exists"@,
            Duplicate::Review => "You have already reviewed this novel"@,
            Duplicate::UserIdentity => "Username or email already exists"@,
        }
    }

    /// The message answered with `Conflict`.
    pub fn message(&self) -> (s: &'static str)
        ensures
            s@ == self.spec_message(),
    {
        match self {
            Duplicate::NovelSlug => "Novel with this slug already exists",
            Duplicate::ChapterNumber => "Chapter number already exists",
            Duplicate::Review => "You have already reviewed this novel",
            Duplicate::UserIdentity => "Username or email already exists",
        }
    }
}

/// The row a lookup found, or `NotFound` about what is missing.
pub fn require_found<T>(row: Option<T>, what: Missing) -> (r: Result<T, AppError>)
    ensures
        row matches Some(v) ==> r == Ok::<T, AppError>(v),
        row is None ==> (r matches Err(e) && e@ == ErrorView::NotFound(what.spec_message())),
{
    match row {
        Some(v) => Ok(v),
        None => Err(what.error()),
    }
}

/// Success where a write touched at least one row, `NotFound` about what is
/// missing otherwise.
pub fn require_affected(rows_affected: u64, what: Missing) -> (r: Result<(), AppError>)
    ensures
        r is Ok <==> rows_affected > 0,
        r matches Err(e) ==> e@ == ErrorView::NotFound(what.spec_message()),
{
    if rows_affected == 0 {
        Err(what.error())
    } else {
        Ok(())
    }
}

/// The error a failed insert is answered with: `Conflict` when it broke a
/// database constraint, a database failure otherwise.
pub fn insert_failure(constraint_violated: bool, rule: Duplicate) -> (e: AppError)
    ensures
        constraint_violated ==> e@ == ErrorView::Conflict(rule.spec_message()),
        !constraint_violated ==> e == AppError::Database,
{
    if constraint_violated {
        conflict(rule.message())
    } else {
        AppError::Database
    }
}

} // verus!
