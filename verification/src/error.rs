//! The errors that the store reports.

use vstd::prelude::*;
use vstd::string::*;

verus! {

/// What went wrong in an operation of the store. Each variant but
/// `DatabaseNotInitialized` carries the underlying failure as text.
#[derive(Debug, PartialEq, Eq)]
pub enum CoreError {
    /// A directory or file could not be resolved or created.
    IoError(String),
    /// The database could not be opened, read or written.
    DatabaseError(String),
    /// An operation ran before a connection was stored.
    DatabaseNotInitialized,
    /// A field could not be turned into its stored text.
    SerializationError(String),
}

impl CoreError {
    /// The message shown for the error: the kind of failure, then the
    /// underlying failure where there is one.
    pub open spec fn message_text(&self) -> Seq<char> {
        match self {
            CoreError::IoError(detail) => "IO Error: "@ + detail@,
            CoreError::DatabaseError(detail) => "Database Error: "@ + detail@,
            CoreError::DatabaseNotInitialized => "Database is not initialized"@,
            CoreError::SerializationError(detail) => "Serialization Error: "@ + detail@,
        }
    }

    /// The error for a data directory that the platform could not name.
    pub fn directory_unresolved(detail: &str) -> (failure: CoreError)
        ensures
            failure matches CoreError::IoError(text) && text@
                == "Failed to resolve app data directory: "@ + detail@,
    {
        CoreError::IoError(
            String::from_str("Failed to resolve app data directory: ").concat(detail),
        )
    }

    /// The error for a data directory that could not be created.
    pub fn directory_not_created(detail: &str) -> (failure: CoreError)
        ensures
            failure matches CoreError::IoError(text) && text@
                == "Failed to create app data directory: "@ + detail@,
    {
        CoreError::IoError(
            String::from_str("Failed to create app data directory: ").concat(detail),
        )
    }

    /// Renders the error as its message.
    pub fn message(&self) -> (text: String)
        ensures
            text@ == self.message_text(),
    {
        match self {
            CoreError::IoError(detail) => String::from_str("IO Error: ").concat(detail.as_str()),
            CoreError::DatabaseError(detail) => String::from_str("Database Error: ").concat(
                detail.as_str(),
            ),
            CoreError::DatabaseNotInitialized => String::from_str("Database is not initialized"),
            CoreError::SerializationError(detail) => String::from_str(
                "Serialization Error: ",
            ).concat(detail.as_str()),
        }
    }
}

} // verus!
