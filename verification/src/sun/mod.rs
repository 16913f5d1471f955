//! Sunrise and sunset, and the theme they call for.
pub mod sun_info;
pub mod sun_stats;
