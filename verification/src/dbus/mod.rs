//! Events from the system bus that wake the main loop early.
pub mod listener;
