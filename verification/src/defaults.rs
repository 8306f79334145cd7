//! Default configuration values.

use vstd::prelude::*;

verus! {

/// Length of a work session: 25 minutes, in seconds.
pub const DEFAULT_INTERVAL_DURATION: u64 = 1500;

/// Length of a short break, in seconds.
pub const DEFAULT_BREAK_DURATION: u64 = 30;

/// How long before a break its reminder comes, in seconds.
pub const BREAK_NOTIFICATION_AT: u64 = 60;

/// Length of a long break, in seconds.
pub const DEFAULT_LONG_BREAK_DURATION: u64 = 120;

/// A long break comes after this many short ones.
pub const DEFAULT_LONG_BREAK_AFTER: u64 = 2;

} // verus!
