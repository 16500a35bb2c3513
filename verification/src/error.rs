//! The error taxonomy shared by the table and the request operations.

use vstd::prelude::*;
use vstd::string::*;

verus! {

/// What can go wrong while serving a request. Each variant carries a
/// human-readable message.
#[derive(Debug, PartialEq, Eq)]
pub enum AppError {
    /// The storage layer refused or failed an operation.
    DbError(String),
    /// A lookup found no matching record.
    NotFound(String),
    /// Client-supplied data failed validation.
    InvalidInput(String),
    /// Any other failure while serving the request.
    InternalError(String),
}

impl AppError {
    /// The message the error carries, without the prefix of its kind.
    pub open spec fn detail(self) -> Seq<char> {
        match self {
            AppError::DbError(msg) => msg@,
            AppError::NotFound(msg) => msg@,
            AppError::InvalidInput(msg) => msg@,
            AppError::InternalError(msg) => msg@,
        }
    }

    /// The fixed text that introduces an error of this kind.
    pub open spec fn prefix(self) -> Seq<char> {
        match self {
            AppError::DbError(_) => "Database error: "@,
            AppError::NotFound(_) => "Not found: "@,
            AppError::InvalidInput(_) => "Invalid input: "@,
            AppError::InternalError(_) => "Internal error: "@,
        }
    }

    /// Whether `other` is an error of the same kind with the same message.
    pub open spec fn same_as(self, other: AppError) -> bool {
        match (self, other) {
            (AppError::DbError(a), AppError::DbError(b)) => a@ == b@,
            (AppError::NotFound(a), AppError::NotFound(b)) => a@ == b@,
            (AppError::InvalidInput(a), AppError::InvalidInput(b)) => a@ == b@,
            (AppError::InternalError(a), AppError::InternalError(b)) => a@ == b@,
            _ => false,
        }
    }

    /// The rendered error: the prefix of its kind followed by its message.
    pub open spec fn rendered(self) -> Seq<char> {
        self.prefix() + self.detail()
    }

    /// Renders the error as text: the prefix of its kind, then the message.
    pub fn to_string(&self) -> (text: String)
        ensures
            text@ == self.rendered(),
    {
        match self {
            AppError::DbError(msg) => String::from_str("Database error: ").concat(msg.as_str()),
            AppError::NotFound(msg) => String::from_str("Not found: ").concat(msg.as_str()),
            AppError::InvalidInput(msg) => String::from_str("Invalid input: ").concat(msg.as_str()),
            AppError::InternalError(msg) => String::from_str("Internal error: ").concat(
                msg.as_str(),
            ),
        }
    }
}

impl Clone for AppError {
    fn clone(&self) -> (copy: Self)
        ensures
            copy.same_as(*self),
    {
        match self {
            AppError::DbError(msg) => AppError::DbError(msg.clone()),
            AppError::NotFound(msg) => AppError::NotFound(msg.clone()),
            AppError::InvalidInput(msg) => AppError::InvalidInput(msg.clone()),
            AppError::InternalError(msg) => AppError::InternalError(msg.clone()),
        }
    }
}

} // verus!
