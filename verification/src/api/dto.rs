//! The bodies of requests and responses.

pub mod auth;
pub mod user;

pub use auth::{AuthResponse, LoginRequest, RegisterRequest};
pub use user::UserResponse;
