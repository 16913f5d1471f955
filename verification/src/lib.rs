//! Decision logic of the asahi dark-mode daemon: when to switch between the
//! light and the dark theme, which settings the desktop portal answers with,
//! which hook scripts run, and where the location comes from.
//!
//! Everything that talks to the outside world (D-Bus, the network, the clock,
//! the file system) lives in the daemon binary; this library holds the rules.
pub mod text;
pub mod keyed;
pub mod paths;
pub mod clock;
pub mod cast;
pub mod timezone;
pub mod toml_input;
pub mod config;
pub mod dbus_portal;
pub mod hooks;
pub mod sun;
pub mod location;
pub mod context;
pub mod daemon;
pub mod dbus;
pub mod sunrise_watcher;
