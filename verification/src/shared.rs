//! What the layers share.

pub mod constants;
