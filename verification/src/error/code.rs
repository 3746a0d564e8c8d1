//! The fixed set of error codes.

use vstd::prelude::*;
use crate::shared::constants::{codes, messages, status};

verus! {

/// The code of an error, which fixes what a client is told.
#[derive(Debug, Clone, Copy, PartialEq, Eq, Structural)]
pub enum ErrorCode {
    InvalidCredentials,
    SupabaseHttpError,
    SupabaseNetworkError,
    SupabaseParseError,
    SupabaseTimeout,
    ValidationFailed,
}

impl ErrorCode {
    /// The identifier of the code.
    pub open spec fn code_text(self) -> Seq<char> {
        match self {
            ErrorCode::InvalidCredentials => "AUTH_INVALID_CREDENTIALS"@,
            ErrorCode::SupabaseHttpError => "SUPABASE_HTTP_ERROR"@,
            ErrorCode::SupabaseNetworkError => "SUPABASE_NETWORK_ERROR"@,
            ErrorCode::SupabaseParseError => "SUPABASE_PARSE_ERROR"@,
            ErrorCode::SupabaseTimeout => "SUPABASE_TIMEOUT"@,
            ErrorCode::ValidationFailed => "VALIDATION_FAILED"@,
        }
    }

    /// The message for a client.
    pub open spec fn message_text(self) -> Seq<char> {
        match self {
            ErrorCode::InvalidCredentials => "Invalid email or password"@,
            ErrorCode::SupabaseHttpError => "Authentication service error"@,
            ErrorCode::SupabaseNetworkError => "Unable to reach authentication service"@,
            ErrorCode::SupabaseParseError => "Authentication service returned invalid data"@,
            ErrorCode::SupabaseTimeout => "Authentication service timed out"@,
            ErrorCode::ValidationFailed => "Invalid input data"@,
        }
    }

    /// The HTTP status code: 401 for bad credentials, 400 for input that
    /// fails validation, 504 when the provider timed out, 502 for every
    /// other fault on the provider's side.
    pub open spec fn status_code(self) -> u16 {
        match self {
            ErrorCode::InvalidCredentials => 401,
            ErrorCode::SupabaseHttpError => 502,
            ErrorCode::SupabaseNetworkError => 502,
            ErrorCode::SupabaseParseError => 502,
            ErrorCode::SupabaseTimeout => 504,
            ErrorCode::ValidationFailed => 400,
        }
    }

    /// The identifier of the code.
    pub fn as_str(&self) -> (text: &'static str)
        ensures
            text@ == self.code_text(),
    {
        match self {
            ErrorCode::InvalidCredentials => codes::AUTH_INVALID_CREDENTIALS,
            ErrorCode::SupabaseHttpError => codes::SUPABASE_HTTP_ERROR,
            ErrorCode::SupabaseNetworkError => codes::SUPABASE_NETWORK_ERROR,
            ErrorCode::SupabaseParseError => codes::SUPABASE_PARSE_ERROR,
            ErrorCode::SupabaseTimeout => codes::SUPABASE_TIMEOUT,
            ErrorCode::ValidationFailed => codes::VALIDATION_FAILED,
        }
    }

    /// The message for a client.
    pub fn message(&self) -> (text: &'static str)
        ensures
            text@ == self.message_text(),
    {
        match self {
            ErrorCode::InvalidCredentials => messages::AUTH_INVALID_CREDENTIALS,
            ErrorCode::SupabaseHttpError => messages::SUPABASE_HTTP_ERROR,
            ErrorCode::SupabaseNetworkError => messages::SUPABASE_NETWORK_ERROR,
            ErrorCode::SupabaseParseError => messages::SUPABASE_PARSE_ERROR,
            ErrorCode::SupabaseTimeout => messages::SUPABASE_TIMEOUT,
            ErrorCode::ValidationFailed => messages::VALIDATION_FAILED,
        }
    }

    /// The HTTP status code.
    pub fn status(&self) -> (code: u16)
        ensures
            code == self.status_code(),
    {
        match self {
            ErrorCode::InvalidCredentials => status::AUTH_INVALID_CREDENTIALS,
            ErrorCode::SupabaseHttpError => status::SUPABASE_HTTP_ERROR,
            ErrorCode::SupabaseNetworkError => status::SUPABASE_NETWORK_ERROR,
            ErrorCode::SupabaseParseError => status::SUPABASE_PARSE_ERROR,
            ErrorCode::SupabaseTimeout => status::SUPABASE_TIMEOUT,
            ErrorCode::ValidationFailed => status::VALIDATION_FAILED,
        }
    }
}

} // verus!
