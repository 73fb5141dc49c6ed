//! Tray/window lifecycle controller for a tray-resident desktop application.
//!
//! The library models the component that owns a system-tray icon and its menu,
//! routes tray interactions to window-visibility and application-lifecycle
//! actions, and intercepts the main window's close request so that closing
//! hides the window instead of terminating the process.  Host-specific work
//! (the actual windowing system, the tray subsystem, process exit) is driven
//! by a thin unverified shell that performs the effect lists these functions
//! return, in order.

pub mod dispatch;
pub mod events;
pub mod laws;
pub mod lifecycle;
pub mod menu;
