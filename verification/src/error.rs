//! The application's error type.

use vstd::prelude::*;

use crate::text::concat_str;

verus! {

/// An error of an application operation, with its detail text.
#[derive(Debug, Clone, PartialEq, Eq)]
pub enum AppError {
    Validation(String),
    History(String),
    Conflict(String),
    NotFound(String),
    SecureStoreUnavailable(String),
    Live(String),
    Exchange(String),
    /// An error from an adapter, carried as its message.
    Other(String),
}

/// The result of an application operation.
pub type AppResult<T> = Result<T, AppError>;

impl AppError {
    /// The message shown for the error: a prefix naming its kind, then the
    /// detail; adapter errors show the detail alone.
    pub open spec fn text(self) -> Seq<char> {
        match self {
            AppError::Validation(m) => "validation failed: "@ + m@,
            AppError::History(m) => "history failed: "@ + m@,
            AppError::Conflict(m) => "conflict: "@ + m@,
            AppError::NotFound(m) => "not found: "@ + m@,
            AppError::SecureStoreUnavailable(m) => "secure store unavailable: "@ + m@,
            AppError::Live(m) => "live operation failed: "@ + m@,
            AppError::Exchange(m) => "exchange operation failed: "@ + m@,
            AppError::Other(m) => m@,
        }
    }

    /// The message shown for the error.
    pub fn message(&self) -> (s: String)
        ensures
            s@ == self.text(),
    {
        match self {
            AppError::Validation(m) => concat_str("validation failed: ", m.as_str()),
            AppError::History(m) => concat_str("history failed: ", m.as_str()),
            AppError::Conflict(m) => concat_str("conflict: ", m.as_str()),
            AppError::NotFound(m) => concat_str("not found: ", m.as_str()),
            AppError::SecureStoreUnavailable(m) => concat_str("secure store unavailable: ", m.as_str()),
            AppError::Live(m) => concat_str("live operation failed: ", m.as_str()),
            AppError::Exchange(m) => concat_str("exchange operation failed: ", m.as_str()),
            AppError::Other(m) => m.clone(),
        }
    }
}

impl From<String> for AppError {
    /// A plain message is a validation error.
    fn from(value: String) -> (e: AppError) {
        AppError::Validation(value)
    }
}

impl vstd::std_specs::convert::FromSpecImpl<String> for AppError {
    open spec fn obeys_from_spec() -> bool {
        true
    }

    open spec fn from_spec(value: String) -> AppError {
        AppError::Validation(value)
    }
}

} // verus!
