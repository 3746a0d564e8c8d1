//! The HTTP interface: what is received, what is decided, what is sent.

pub mod dto;
pub mod handlers;
