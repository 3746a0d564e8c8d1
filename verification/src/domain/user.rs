//! The user record as the gateway holds it, tokens included.

use vstd::prelude::*;

verus! {

/// The identifier that the identity provider gave a user.
pub type UserId = String;

/// Mathematical value of a [`User`].
pub struct UserView {
    pub id: Seq<char>,
    pub email: Seq<char>,
    pub username: Seq<char>,
    pub role: Seq<char>,
    pub access_token: Seq<char>,
    pub refresh_token: Seq<char>,
    pub expires_at: u64,
}

/// A user as the identity provider reported it. The two tokens are secrets
/// that stay on the server.
#[derive(Debug, PartialEq, Eq)]
pub struct User {
    pub id: UserId,
    pub email: String,
    pub username: String,
    pub role: String,
    pub access_token: String,
    pub refresh_token: String,
    pub expires_at: u64,
}

impl View for User {
    type V = UserView;

    open spec fn view(&self) -> UserView {
        UserView {
            id: self.id@,
            email: self.email@,
            username: self.username@,
            role: self.role@,
            access_token: self.access_token@,
            refresh_token: self.refresh_token@,
            expires_at: self.expires_at,
        }
    }
}

impl Clone for User {
    fn clone(&self) -> (copy: Self)
        ensures
            copy == *self,
    {
        User {
            id: self.id.clone(),
            email: self.email.clone(),
            username: self.username.clone(),
            role: self.role.clone(),
            access_token: self.access_token.clone(),
            refresh_token: self.refresh_token.clone(),
            expires_at: self.expires_at,
        }
    }
}

} // verus!
