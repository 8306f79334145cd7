//! A break-reminder timer: work sessions that count down to a break, short and
//! long breaks, persisted settings and keyboard shortcuts.
//!
//! The crate holds the decisions; the host application performs the side
//! effects (windows, tray, notifications, timers, files) that each decision
//! returns as a list of [`actions::Action`]s.

pub mod actions;
pub mod clock;
pub mod commands;
pub mod decimal;
pub mod defaults;
pub mod settings;
pub mod session;
pub mod state;
pub mod laws;
pub mod shortcuts;
pub mod text;
