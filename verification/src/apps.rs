//! The apps of the platform.

pub mod collection;

pub use collection::CollectionApp;
