//! The error every request decision can end in.
use vstd::prelude::*;

verus! {

/// What a request can fail with. Each variant is answered with its own HTTP
/// status; the text of `BadRequest`, `Conflict` and `Internal` is shown to
/// the user.
#[derive(Debug, Clone)]
pub enum AppError {
    BadRequest(String),
    Conflict(String),
    Unauthorized,
    Forbidden,
    NotFound,
    Internal(String),
}

/// An `AppError` with its texts taken as character sequences.
pub enum ErrorView {
    BadRequest(Seq<char>),
    Conflict(Seq<char>),
    Unauthorized,
    Forbidden,
    NotFound,
    Internal(Seq<char>),
}

impl View for AppError {
    type V = ErrorView;

    open spec fn view(&self) -> ErrorView {
        match self {
            AppError::BadRequest(m) => ErrorView::BadRequest(m@),
            AppError::Conflict(m) => ErrorView::Conflict(m@),
            AppError::Unauthorized => ErrorView::Unauthorized,
            AppError::Forbidden => ErrorView::Forbidden,
            AppError::NotFound => ErrorView::NotFound,
            AppError::Internal(m) => ErrorView::Internal(m@),
        }
    }
}

impl AppError {
    /// A bad-request error with the given text.
    pub fn bad(msg: &str) -> (r: AppError)
        ensures
            r@ == ErrorView::BadRequest(msg@),
    {
        AppError::BadRequest(msg.to_owned())
    }

    /// A conflict error with the given text.
    pub fn conflict(msg: &str) -> (r: AppError)
        ensures
            r@ == ErrorView::Conflict(msg@),
    {
        AppError::Conflict(msg.to_owned())
    }
}

} // verus!
