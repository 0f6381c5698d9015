//! The types that applications and clients of a node see, and the application hooks.

pub mod app_hook;
pub mod application;
pub mod types;
