//! The failure classes that the service reports, and the HTTP status and
//! message of each.

use vstd::prelude::*;

verus! {

/// A failure as the caller of the service sees it.
///
/// Bad credentials, a bad, expired or reused token and a missing bearer token
/// are all `Unauthorized`, so that a response never tells them apart.
#[derive(Clone, Copy, Debug, PartialEq, Eq, Structural)]
pub enum AppError {
    InternalError,
    BadClientData,
    Timeout,
    NotFound,
    Unauthorized,
}

/// How a query on the relational store failed.
#[derive(Clone, Copy, Debug, PartialEq, Eq, Structural)]
pub enum DbError {
    /// The query matched no row.
    RowNotFound,
    /// Any other failure of the store.
    Other,
}

impl AppError {
    /// The HTTP status that stands for this failure.
    pub open spec fn status(self) -> int {
        match self {
            AppError::InternalError => 500,
            AppError::BadClientData => 400,
            AppError::Timeout => 504,
            AppError::NotFound => 404,
            AppError::Unauthorized => 401,
        }
    }

    /// The body of the response for this failure.
    pub open spec fn message_text(self) -> Seq<char> {
        match self {
            AppError::InternalError => "internal error"@,
            AppError::BadClientData => "bad request"@,
            AppError::Timeout => "timeout"@,
            AppError::NotFound => "Resource Not Found"@,
            AppError::Unauthorized => "unauthorized"@,
        }
    }

    /// The HTTP status code of the response for this failure.
    pub fn status_code(&self) -> (code: u16)
        ensures
            code == self.status(),
    {
        match self {
            AppError::InternalError => 500,
            AppError::BadClientData => 400,
            AppError::Timeout => 504,
            AppError::NotFound => 404,
            AppError::Unauthorized => 401,
        }
    }

    /// The body of the response for this failure. It depends on the class
    /// alone and carries no detail of what went wrong.
    pub fn message(&self) -> (text: &'static str)
        ensures
            text@ == self.message_text(),
    {
        match self {
            AppError::InternalError => "internal error",
            AppError::BadClientData => "bad request",
            AppError::Timeout => "timeout",
            AppError::NotFound => "Resource Not Found",
            AppError::Unauthorized => "unauthorized",
        }
    }
}

/// The failure that a failed query is reported as.
pub open spec fn db_failure(e: DbError) -> AppError {
    match e {
        DbError::RowNotFound => AppError::NotFound,
        DbError::Other => AppError::InternalError,
    }
}

impl From<DbError> for AppError {
    fn from(e: DbError) -> (error: AppError) {
        match e {
            DbError::RowNotFound => AppError::NotFound,
            DbError::Other => AppError::InternalError,
        }
    }
}

impl vstd::std_specs::convert::FromSpecImpl<DbError> for AppError {
    open spec fn obeys_from_spec() -> bool {
        true
    }

    open spec fn from_spec(e: DbError) -> AppError {
        db_failure(e)
    }
}

} // verus!
