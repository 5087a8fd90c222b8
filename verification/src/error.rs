use vstd::prelude::*;

verus! {

/// Error answered by the API.
///
/// `Database` stands for a failure reported by the database driver; the
/// application keeps the driver's own error value beside it.
#[derive(Debug, Clone, PartialEq, Eq)]
pub enum AppError {
    BadRequest(String),
    NotFound(String),
    Conflict(String),
    Unauthorized,
    Forbidden,
    Database,
    Internal(String),
}

/// Mathematical view of an [`AppError`]: messages as character sequences.
pub enum ErrorView {
    BadRequest(Seq<char>),
    NotFound(Seq<char>),
    Conflict(Seq<char>),
    Unauthorized,
    Forbidden,
    Database,
    Internal(Seq<char>),
}

impl View for AppError {
    type V = ErrorView;

    open spec fn view(&self) -> ErrorView {
        match self {
            AppError::BadRequest(m) => ErrorView::BadRequest(m@),
            AppError::NotFound(m) => ErrorView::NotFound(m@),
            AppError::Conflict(m) => ErrorView::Conflict(m@),
            AppError::Unauthorized => ErrorView::Unauthorized,
            AppError::Forbidden => ErrorView::Forbidden,
            AppError::Database => ErrorView::Database,
            AppError::Internal(m) => ErrorView::Internal(m@),
        }
    }
}

/// Builds `AppError::NotFound` with the given message.
pub fn not_found(msg: &str) -> (e: AppError)
    ensures
        e@ == ErrorView::NotFound(msg@),
{
    AppError::NotFound(String::from_str(msg))
}

/// Builds `AppError::BadRequest` with the given message.
pub fn bad_request(msg: &str) -> (e: AppError)
    ensures
        e@ == ErrorView::BadRequest(msg@),
{
    AppError::BadRequest(String::from_str(msg))
}

/// Builds `AppError::Conflict` with the given message.
pub fn conflict(msg: &str) -> (e: AppError)
    ensures
        e@ == ErrorView::Conflict(msg@),
{
    AppError::Conflict(String::from_str(msg))
}

} // verus!
