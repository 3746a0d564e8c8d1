//! The error that a request ends in.

use vstd::prelude::*;
use crate::error::auth::{of_provider, AuthError};
use crate::error::code::ErrorCode;
use crate::error::response::{ErrorResponse, ErrorResponseView};
use crate::error::supabase::SupabaseError;

verus! {

/// Every error of the application ends up as one of these.
#[derive(Debug, PartialEq, Eq)]
pub enum AppError {
    /// Authentication failed.
    Auth(AuthError),
    /// The input `field` is not valid, for the reason `message`.
    Validation { field: &'static str, message: String },
}

/// The result of a request handler.
pub type AppResult<T> = Result<T, AppError>;

impl AppError {
    /// The code of the error.
    pub open spec fn error_code(self) -> ErrorCode {
        match self {
            AppError::Auth(error) => error.error_code(),
            AppError::Validation { .. } => ErrorCode::ValidationFailed,
        }
    }

    /// What a client is told of the error: the code and the message that
    /// goes with it, and the field only for input that is not valid.
    pub open spec fn response(self) -> ErrorResponseView {
        ErrorResponseView {
            code: self.error_code().code_text(),
            message: self.error_code().message_text(),
            field: match self {
                AppError::Validation { field, .. } => Some(field@),
                AppError::Auth(_) => None,
            },
        }
    }

    /// The code of the error.
    pub fn code(&self) -> (code: ErrorCode)
        ensures
            code == self.error_code(),
    {
        match self {
            AppError::Auth(error) => error.code(),
            AppError::Validation { .. } => ErrorCode::ValidationFailed,
        }
    }

    /// The error for an input `field` that is not valid.
    pub fn validation(field: &'static str, message: String) -> (error: AppError)
        ensures
            error == (AppError::Validation { field, message }),
    {
        AppError::Validation { field, message }
    }

    /// The HTTP status code of the response.
    pub fn status_code(&self) -> (status: u16)
        ensures
            status == self.error_code().status_code(),
    {
        self.code().status()
    }

    /// The body of the response.
    pub fn error_response(&self) -> (body: ErrorResponse)
        ensures
            body@ == self.response(),
    {
        let code = self.code();
        ErrorResponse {
            code: code.as_str(),
            message: code.message(),
            field: match self {
                AppError::Validation { field, .. } => Some(*field),
                AppError::Auth(_) => None,
            },
        }
    }
}

impl From<AuthError> for AppError {
    fn from(err: AuthError) -> (error: AppError) {
        AppError::Auth(err)
    }
}

impl vstd::std_specs::convert::FromSpecImpl<AuthError> for AppError {
    open spec fn obeys_from_spec() -> bool {
        true
    }

    open spec fn from_spec(err: AuthError) -> AppError {
        AppError::Auth(err)
    }
}

impl From<SupabaseError> for AppError {
    fn from(err: SupabaseError) -> (error: AppError) {
        AppError::Auth(AuthError::of(err))
    }
}

impl vstd::std_specs::convert::FromSpecImpl<SupabaseError> for AppError {
    open spec fn obeys_from_spec() -> bool {
        true
    }

    open spec fn from_spec(err: SupabaseError) -> AppError {
        AppError::Auth(of_provider(err))
    }
}

} // verus!
