//! A small desktop-shell library: the greeting returned by the shell's one
//! command, and the platform-conditional window-decoration settings that the
//! startup routine applies to the main window.
//!
//! The host windowing system itself (window creation, rendering, the event
//! loop) stays outside: this crate only decides what the startup routine
//! should do, from plain values the host hands it.

pub mod greeting;
pub mod startup;
