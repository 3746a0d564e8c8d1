//! The response that describes the current user.

use vstd::prelude::*;
use crate::domain::user::User;

verus! {

/// What a client is told of a user. It has no place for a token.
#[derive(Debug, PartialEq, Eq)]
pub struct UserResponse {
    pub email: String,
    pub username: String,
    pub role: String,
}

impl From<&User> for UserResponse {
    fn from(u: &User) -> (response: UserResponse) {
        Self { email: u.email.clone(), username: u.username.clone(), role: u.role.clone() }
    }
}

impl vstd::std_specs::convert::FromSpecImpl<&User> for UserResponse {
    open spec fn obeys_from_spec() -> bool {
        true
    }

    open spec fn from_spec(u: &User) -> UserResponse {
        UserResponse { email: u.email, username: u.username, role: u.role }
    }
}

} // verus!
