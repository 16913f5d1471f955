//! Sources of location fixes, and the cache in front of them.
pub mod manual;
pub mod ip;

pub mod wrapper;
