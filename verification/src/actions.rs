//! What a decision asks the host application to do.

use vstd::prelude::*;

verus! {

/// Moments at which a chime may sound.
#[derive(Clone, Copy, Debug, PartialEq, Eq, Structural)]
pub enum ChimeEvent {
    SessionStart,
    BreakStart,
    BreakEnd,
    Reminder,
}

/// Fixed titles the tray can show.
#[derive(Clone, Copy, Debug, PartialEq, Eq, Structural)]
pub enum TrayTitle {
    SessionPaused,
    OnBreak,
}

/// What the focus statistics are told.
#[derive(Clone, Copy, Debug, PartialEq, Eq, Structural)]
pub enum StatsEvent {
    /// One more second of focus.
    FocusTick,
    /// Record the focus time gathered so far.
    FlushFocus,
    /// A break ran to its end.
    BreakCompleted,
    /// A break was skipped or snoozed.
    BreakSkipped,
}

/// One side effect for the host application, in the order given.
#[derive(Clone, Copy, Debug, PartialEq, Eq, Structural)]
pub enum Action {
    /// Sound the chime for an event (only returned where the settings ask for it).
    PlayChime(ChimeEvent),
    /// Stop the running session countdown task.
    AbortSessionTimer,
    /// Stop the running break countdown task.
    AbortBreakTimer,
    /// Close every window whose label starts with `break`, then report it
    /// with `commands::break_windows_closed`: until then the windows count
    /// as being closed by the application itself.
    CloseBreakWindows,
    /// Show the tray menu for this situation.
    UpdateTrayMenu { session_active: bool, paused: bool, on_break: bool },
    /// Show a fixed tray title.
    SetTrayTitle(TrayTitle),
    /// Remove the tray title.
    ClearTrayTitle,
    /// Show the seconds left in the tray.
    ShowRemaining(i64),
    /// Start the session countdown task.
    StartSessionTimer,
    /// Open a break window on every display.
    OpenBreakWindows { long_break: bool, duration: u64 },
    /// Start the break countdown from this many seconds.
    StartBreakTimer(u64),
    /// Notify that a break comes in this many seconds.
    PreBreakReminder(u64),
    /// Tell the statistics.
    Stats(StatsEvent),
    /// Write the settings to their file.
    SaveSettings,
    /// Turn launching at login on or off.
    SetAutostart(bool),
    /// Unregister and register the keyboard shortcuts again.
    ReregisterShortcuts,
}

/// An instant fell outside what an `i64` of nanoseconds since the Unix epoch
/// holds (the years 1677 to 2262), or a time left outside an `i64` of
/// milliseconds; nothing was changed.
#[derive(Clone, Copy, Debug, PartialEq, Eq, Structural)]
pub struct InstantOutOfRange;

} // verus!
