//! What each endpoint decides. Reading the request and sending the
//! response are left to the caller.

pub mod auth;
pub mod user;
