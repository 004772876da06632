//! The library's error type.

use vstd::prelude::*;

verus! {

/// Every failure the library reports, with a human-readable message.
#[derive(Debug)]
pub enum AppError {
    /// A database statement failed.
    DatabaseError(String),
    /// A file could not be read or written.
    FileSystemError(String),
    /// A record that the request names does not exist.
    NotFound(String),
    /// The request itself is not acceptable.
    InvalidInput(String),
    /// A path could not be made safe.
    PathError(String),
    /// Something that should not happen happened.
    Unexpected(String),
}

/// Result of a library operation.
pub type AppResult<T> = Result<T, AppError>;

} // verus!
