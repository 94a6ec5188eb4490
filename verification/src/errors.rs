//! The error taxonomy of the data-access layer.
//!
//! Every failure is one of three kinds — the storage file cannot be opened,
//! a statement cannot be prepared or executed, or a row cannot be decoded —
//! and each carries a human-readable description. At the public boundary
//! the kind is collapsed to that single string.

use vstd::prelude::*;

verus! {

/// Why a database operation failed.
pub enum DbError {
    /// The storage file could not be opened.
    StorageUnavailable(String),
    /// A statement could not be prepared or executed.
    QueryFailed(String),
    /// A result row could not be read into the expected shape.
    DecodeFailed(String),
}

impl DbError {
    /// The human-readable description carried by the error, whatever its kind.
    pub open spec fn text(self) -> Seq<char> {
        match self {
            DbError::StorageUnavailable(s) => s@,
            DbError::QueryFailed(s) => s@,
            DbError::DecodeFailed(s) => s@,
        }
    }

    /// Collapses the error to its description, as the public accessors
    /// report failures to their callers.
    pub fn into_message(self) -> (s: String)
        ensures
            s@ == self.text(),
    {
        match self {
            DbError::StorageUnavailable(s) => s,
            DbError::QueryFailed(s) => s,
            DbError::DecodeFailed(s) => s,
        }
    }
}

} // verus!
