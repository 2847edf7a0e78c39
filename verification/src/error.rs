//! Error taxonomy of the service: every failure a handler can report,
//! with its stable HTTP status and generic message.

use vstd::prelude::*;

verus! {

/// The typed failure reasons of the service. The surrounding HTTP layer
/// turns each into one response; the variant, not the message, is the
/// stable part of the contract.
#[derive(Clone, Copy, Debug, PartialEq, Eq, Structural)]
pub enum AppError {
    InvalidToken,
    WrongCredentials,
    MissingCredentials,
    NotFound,
    InternalServerError,
    Forbidden,
    BadRequest,
    Conflict,
}

impl AppError {
    /// The HTTP status code of the error.
    pub open spec fn spec_status_code(self) -> u16 {
        match self {
            AppError::InternalServerError => 500,
            AppError::WrongCredentials => 401,
            AppError::MissingCredentials => 400,
            AppError::NotFound => 404,
            AppError::InvalidToken => 401,
            AppError::Forbidden => 403,
            AppError::BadRequest => 400,
            AppError::Conflict => 409,
        }
    }

    pub fn status_code(&self) -> (r: u16)
        ensures
            r == self.spec_status_code(),
    {
        match self {
            AppError::InternalServerError => 500,
            AppError::WrongCredentials => 401,
            AppError::MissingCredentials => 400,
            AppError::NotFound => 404,
            AppError::InvalidToken => 401,
            AppError::Forbidden => 403,
            AppError::BadRequest => 400,
            AppError::Conflict => 409,
        }
    }

    /// The generic, non-enumerating message shown to the caller.
    pub fn message(&self) -> (r: &'static str)
        ensures
            self == AppError::InternalServerError ==> r@ == "Internal server error"@,
            self == AppError::WrongCredentials ==> r@ == "Invalid email or password"@,
            self == AppError::MissingCredentials ==> r@ == "Missing or invalid input"@,
            self == AppError::NotFound ==> r@ == "Resource not found"@,
            self == AppError::InvalidToken ==> r@ == "Invalid or expired token"@,
            self == AppError::Forbidden ==> r@ == "You do not have permission to perform this action"@,
            self == AppError::BadRequest ==> r@ == "Bad Request"@,
            self == AppError::Conflict ==> r@ == "Resource already exists"@,
    {
        match self {
            AppError::InternalServerError => "Internal server error",
            AppError::WrongCredentials => "Invalid email or password",
            AppError::MissingCredentials => "Missing or invalid input",
            AppError::NotFound => "Resource not found",
            AppError::InvalidToken => "Invalid or expired token",
            AppError::Forbidden => "You do not have permission to perform this action",
            AppError::BadRequest => "Bad Request",
            AppError::Conflict => "Resource already exists",
        }
    }
}

/// Rejection of the identity extractor: an HTTP status with a message.
#[derive(Clone, Debug)]
pub struct AuthError {
    pub status: u16,
    pub message: String,
}

} // verus!
