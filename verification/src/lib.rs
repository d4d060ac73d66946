//! The global hotkey and window-targeting subsystem of a tray-resident
//! desktop utility: a registry for the session's single user-configurable
//! global shortcut, a router that delivers fired hotkey events to one of two
//! named windows, placement of the widget overlay, and the window and
//! process-exit policy around them.

pub mod desktop;
pub mod layout;
pub mod registry;
pub mod router;
pub mod shortcut;
