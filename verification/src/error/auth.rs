//! Failures of authentication, as the service layer sees them.

use vstd::prelude::*;
use crate::error::code::ErrorCode;
use crate::error::supabase::SupabaseError;
use crate::shared::constants::status::{BAD_REQUEST, UNAUTHORIZED};

verus! {

/// Why a user could not be authenticated.
#[derive(Debug, PartialEq, Eq)]
pub enum AuthError {
    /// The provider refused the credentials.
    InvalidCredentials,
    /// The call to the provider failed in another way.
    External(SupabaseError),
}

impl AuthError {
    /// The code of the error.
    pub open spec fn error_code(self) -> ErrorCode {
        match self {
            AuthError::InvalidCredentials => ErrorCode::InvalidCredentials,
            AuthError::External(failure) => failure@.code(),
        }
    }

    /// The authentication error that the provider failure `err` is.
    pub fn of(err: SupabaseError) -> (error: AuthError)
        ensures
            error == of_provider(err),
    {
        match err {
            SupabaseError::Http { status, body } => {
                if status == UNAUTHORIZED || status == BAD_REQUEST {
                    AuthError::InvalidCredentials
                } else {
                    AuthError::External(SupabaseError::Http { status, body })
                }
            },
            other => AuthError::External(other),
        }
    }

    /// The code of the error.
    pub fn code(&self) -> (code: ErrorCode)
        ensures
            code == self.error_code(),
    {
        match self {
            AuthError::InvalidCredentials => ErrorCode::InvalidCredentials,
            AuthError::External(failure) => failure.code(),
        }
    }
}

/// The authentication error that the provider failure `err` is: a status
/// of 401 or 400 from the provider means that the credentials were refused,
/// and every other failure is kept as it is.
pub open spec fn of_provider(err: SupabaseError) -> AuthError {
    match err {
        SupabaseError::Http { status, .. } => if status == 401 || status == 400 {
            AuthError::InvalidCredentials
        } else {
            AuthError::External(err)
        },
        _ => AuthError::External(err),
    }
}

impl From<SupabaseError> for AuthError {
    fn from(err: SupabaseError) -> (error: AuthError) {
        AuthError::of(err)
    }
}

impl vstd::std_specs::convert::FromSpecImpl<SupabaseError> for AuthError {
    open spec fn obeys_from_spec() -> bool {
        true
    }

    open spec fn from_spec(err: SupabaseError) -> AuthError {
        of_provider(err)
    }
}

/// Turning a provider failure into an authentication error keeps its code.
pub proof fn lemma_from_keeps_code(err: SupabaseError)
    ensures
        of_provider(err).error_code() == err@.code(),
{
}

} // verus!
