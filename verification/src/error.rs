//! Errors, from the identity provider's up to the one that a client sees:
//! `SupabaseError`, then `AuthError`, then `AppError`, then the response.

pub mod app;
pub mod auth;
pub mod code;
pub mod response;
pub mod supabase;

pub use app::{AppError, AppResult};
pub use auth::AuthError;
pub use code::ErrorCode;
pub use response::ErrorResponse;
pub use supabase::{SupabaseError, TransportFailure};
