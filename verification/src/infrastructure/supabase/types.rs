//! The bodies of the requests to the provider, and its answer.

use vstd::prelude::*;
use crate::domain::user::User;

verus! {

/// The body of a request to log in.
#[derive(Debug, PartialEq, Eq)]
pub struct LoginBody<'a> {
    pub email: &'a str,
    pub password: &'a str,
}

/// The body of a request to register.
#[derive(Debug, PartialEq, Eq)]
pub struct RegisterBody<'a> {
    pub email: &'a str,
    pub password: &'a str,
    pub data: RegisterMetadata<'a>,
}

/// What is stored with a user at registration. A telephone field that is
/// `None` is left out of the request.
#[derive(Debug, PartialEq, Eq)]
pub struct RegisterMetadata<'a> {
    pub username: &'a str,
    pub phone_country_code: Option<&'a str>,
    pub phone_number: Option<&'a str>,
}

/// The provider's answer to a login or a registration.
#[derive(Debug)]
pub struct SupabaseAuthResponse {
    pub access_token: String,
    pub token_type: String,
    pub expires_in: u64,
    pub expires_at: u64,
    pub refresh_token: String,
    pub user: SupabaseUserRaw,
}

/// The user as the provider describes it.
#[derive(Debug)]
pub struct SupabaseUserRaw {
    pub id: String,
    pub email: String,
    pub role: String,
    pub aud: String,
    /// The text under `username` in the data stored with the user, if there
    /// is text under that name.
    pub username: Option<String>,
    pub created_at: Option<String>,
    pub email_confirmed_at: Option<String>,
    pub last_sign_in_at: Option<String>,
}

/// The text of `found`, or the empty text.
pub open spec fn text_or_empty(found: Option<String>) -> Seq<char> {
    match found {
        Some(text) => text@,
        None => Seq::empty(),
    }
}

impl User {
    /// The user record that the provider's answer describes. A user
    /// without a stored user name has the empty one.
    pub fn from(resp: SupabaseAuthResponse) -> (user: User)
        ensures
            user.id == resp.user.id,
            user.email == resp.user.email,
            user.username@ == text_or_empty(resp.user.username),
            user.role == resp.user.role,
            user.access_token == resp.access_token,
            user.refresh_token == resp.refresh_token,
            user.expires_at == resp.expires_at,
    {
        let username = match resp.user.username {
            Some(text) => text,
            None => String::new(),
        };
        User {
            id: resp.user.id,
            email: resp.user.email,
            username,
            role: resp.user.role,
            access_token: resp.access_token,
            refresh_token: resp.refresh_token,
            expires_at: resp.expires_at,
        }
    }
}

} // verus!
