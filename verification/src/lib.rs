//! Server-side sessions for an HTTP gateway that delegates authentication to
//! an external identity provider.

pub mod api;
pub mod apps;
pub mod config;
pub mod domain;
pub mod error;
pub mod file;
pub mod infrastructure;
pub mod services;
pub mod shared;
pub mod state;
pub mod text;
