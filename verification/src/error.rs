//! The error type shared by the library's fallible operations.

use vstd::prelude::*;

verus! {

/// Declares `std::io::Error` so it can be carried inside [`AppError::Io`].
#[verifier::external_type_specification]
#[verifier::external_body]
pub struct ExIoError(std::io::Error);

/// Declares `serde_json::Error` so it can be carried inside [`AppError::Json`].
#[verifier::external_type_specification]
#[verifier::external_body]
pub struct ExJsonError(serde_json::Error);

/// Every failure the library reports. `code()` gives the stable category the
/// user interface switches on.
#[derive(Debug)]
pub enum AppError {
    /// Entity not found by id.
    NotFound { entity: &'static str, id: String },
    /// Input that fails a domain rule.
    Validation(String),
    /// Audio subsystem failure.
    Audio(String),
    /// Project storage failure.
    Database(String),
    /// File-system failure.
    Io(std::io::Error),
    /// JSON encoding or decoding failure.
    Json(serde_json::Error),
    /// Anything else.
    Internal(String),
}

/// The category name of an error, as a character sequence.
pub open spec fn error_code(e: AppError) -> Seq<char> {
    match e {
        AppError::NotFound { .. } => "not_found"@,
        AppError::Validation(_) => "validation"@,
        AppError::Audio(_) => "audio"@,
        AppError::Database(_) => "database"@,
        AppError::Io(_) => "io"@,
        AppError::Json(_) => "json"@,
        AppError::Internal(_) => "internal"@,
    }
}

impl AppError {
    /// Short, machine-readable category for the renderer to switch on.
    pub fn code(&self) -> (c: &'static str)
        ensures
            c@ == error_code(*self),
    {
        match self {
            AppError::NotFound { .. } => "not_found",
            AppError::Validation(_) => "validation",
            AppError::Audio(_) => "audio",
            AppError::Database(_) => "database",
            AppError::Io(_) => "io",
            AppError::Json(_) => "json",
            AppError::Internal(_) => "internal",
        }
    }
}

/// Convenience alias for the library's results.
pub type AppResult<T> = Result<T, AppError>;

} // verus!
