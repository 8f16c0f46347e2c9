//! The connection scheduler behind the system tray: what commands exist,
//! how bursts of them collapse, and how the daemon reacts to timers,
//! commands and failures.

pub mod commands;
pub mod daemon;
pub mod ids;
pub mod menu;
pub mod queue;
pub mod scheduler;
