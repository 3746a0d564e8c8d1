//! The services that carry out what a request asks for.

pub mod auth;

pub use auth::AuthService;
