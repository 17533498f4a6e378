//! The library's error kinds and how each is reported at the boundary.
use vstd::prelude::*;

verus! {

#[derive(Clone, Debug, PartialEq, Eq)]
pub enum AppError {
    Database(String),
    Auth(String),
    Validation(String),
    NotFound(String),
}

impl AppError {
    /// The HTTP status that reports this error.
    pub fn status_code(&self) -> (r: u16)
        ensures
            r == match self {
                AppError::Database(_) => 500u16,
                AppError::Auth(_) => 401u16,
                AppError::Validation(_) => 400u16,
                AppError::NotFound(_) => 404u16,
            },
    {
        match self {
            AppError::Database(_) => 500,
            AppError::Auth(_) => 401,
            AppError::Validation(_) => 400,
            AppError::NotFound(_) => 404,
        }
    }

    /// The stable code that names this error in a response body.
    pub fn code(&self) -> (r: &'static str)
        ensures
            r@ == match self {
                AppError::Database(_) => "INTERNAL_SERVER_ERROR"@,
                AppError::Auth(_) => "AUTH_FAILED"@,
                AppError::Validation(_) => "INVALID_INPUT"@,
                AppError::NotFound(_) => "NOT_FOUND"@,
            },
    {
        match self {
            AppError::Database(_) => "INTERNAL_SERVER_ERROR",
            AppError::Auth(_) => "AUTH_FAILED",
            AppError::Validation(_) => "INVALID_INPUT",
            AppError::NotFound(_) => "NOT_FOUND",
        }
    }

    /// The human-readable message carried by this error.
    pub fn message(&self) -> (r: String)
        ensures
            r@ == match self {
                AppError::Database(m) => m@,
                AppError::Auth(m) => m@,
                AppError::Validation(m) => m@,
                AppError::NotFound(m) => m@,
            },
    {
        match self {
            AppError::Database(m) => m.clone(),
            AppError::Auth(m) => m.clone(),
            AppError::Validation(m) => m.clone(),
            AppError::NotFound(m) => m.clone(),
        }
    }
}

} // verus!
