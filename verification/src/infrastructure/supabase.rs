//! The identity provider: where to send a request, what to send, and what
//! its answer holds.

pub mod client;
pub mod types;

pub use client::SupabaseClient;
