//! Where the daemon is, and where that knowledge comes from.
pub mod types;
pub mod providers;
pub mod cache;
