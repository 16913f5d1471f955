//! The D-Bus facing parts of the daemon: the settings portal and the control
//! interface.
pub mod settings;
pub mod portal;
pub mod control;
pub mod management;
pub mod xdg_interfaces;
