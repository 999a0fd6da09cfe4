//! The errors that the handlers answer with, and the database errors that the
//! server reports to them.
use vstd::prelude::*;

verus! {

/// The status code of a refused request.
pub const BAD_REQUEST: u16 = 400;

/// The status code of a request that failed on the server's side.
pub const INTERNAL_SERVER_ERROR: u16 = 500;

/// An error answer: an HTTP status code and a message.
#[derive(Debug, PartialEq, Eq)]
pub struct AppError {
    pub code: u16,
    pub message: String,
}

pub struct AppErrorView {
    pub code: u16,
    pub message: Seq<char>,
}

impl View for AppError {
    type V = AppErrorView;

    open spec fn view(&self) -> AppErrorView {
        AppErrorView { code: self.code, message: self.message@ }
    }
}

impl AppError {
    pub fn new(code: u16, message: String) -> (e: AppError)
        ensures
            e.code == code,
            e.message == message,
    {
        AppError { code, message }
    }
}

/// A failed database operation, by the text of the error. A failed query also
/// carries the text of the driver's error alone.
#[derive(Debug, PartialEq, Eq)]
pub enum DbError {
    Query { error: String, query_error: String },
    Other { error: String },
}

pub enum DbErrorView {
    Query { error: Seq<char>, query_error: Seq<char> },
    Other { error: Seq<char> },
}

impl View for DbError {
    type V = DbErrorView;

    open spec fn view(&self) -> DbErrorView {
        match self {
            DbError::Query { error, query_error } => DbErrorView::Query {
                error: error@,
                query_error: query_error@,
            },
            DbError::Other { error } => DbErrorView::Other { error: error@ },
        }
    }
}

impl DbErrorView {
    /// The text of the error.
    pub open spec fn text(self) -> Seq<char> {
        match self {
            DbErrorView::Query { error, .. } => error,
            DbErrorView::Other { error } => error,
        }
    }
}

impl DbError {
    /// The text of the error.
    pub fn text(self) -> (t: String)
        ensures
            t@ == self@.text(),
    {
        match self {
            DbError::Query { error, .. } => error,
            DbError::Other { error } => error,
        }
    }
}

} // verus!
