//! Native background core of a desktop time-tracking application.
//!
//! The library covers the logic that runs unattended behind the tray icon:
//! rendering the circular status and menu icons, formatting the elapsed-time
//! label, the timer engine's polling-tick state machine (idle and sleep
//! detection, superseding of loops), the reminder scheduler's firing policy,
//! and the tray menu model. Platform bindings (tray handle, windowing,
//! notification delivery) live outside the library.

pub mod color;
pub mod icon;
pub mod idle;
pub mod menu;
pub mod reminder;
pub mod timefmt;
pub mod timer;
