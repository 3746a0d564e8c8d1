//! Constants: error codes, messages and status codes, and provider paths.

pub mod codes;
pub mod messages;
pub mod status;
pub mod urls;
