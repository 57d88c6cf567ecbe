//! The daily window in which the garden light may be switched on.
use vstd::prelude::*;

verus! {

/// A UTC instant not before the Unix epoch: whole seconds since the epoch
/// and the nanoseconds past that second.
#[derive(Debug, Clone, Copy, PartialEq, Eq, Structural)]
pub struct Instant {
    pub secs: u64,
    pub nanos: u32,
}

/// Offset added to the clock before the window is placed, in seconds (two hours).
pub const SHIFT_SECS: u64 = 7200;

/// Seconds in a day.
pub const DAY_SECS: u64 = 86400;

/// Opening of the window, in seconds after midnight (13:23:00).
pub const WINDOW_START_SECS: u64 = 48180;

/// Closing of the window, in seconds after midnight (22:00:00).
pub const WINDOW_END_SECS: u64 = 79200;

/// Midnight that begins the calendar day holding second `x`.
pub open spec fn day_start(x: int) -> int {
    x - x % (DAY_SECS as int)
}

/// The shifted instant lies strictly after 13:23:00 and strictly before
/// 22:00:00 of its own calendar day.
pub open spec fn in_window(t: Instant) -> bool {
    let s = t.secs + SHIFT_SECS;
    let start = day_start(s) + WINDOW_START_SECS;
    let end = day_start(s) + WINDOW_END_SECS;
    &&& (s > start || (s == start && t.nanos > 0))
    &&& s < end
}

/// Whether `now`, shifted by two hours, falls inside the daily window.
pub fn is_in_timeframe(now: &Instant) -> (r: bool)
    ensures
        r == in_window(*now),
{
    let shifted: u128 = now.secs as u128 + SHIFT_SECS as u128;
    let of_day: u128 = shifted % (DAY_SECS as u128);
    let after_start = of_day > WINDOW_START_SECS as u128 || (of_day == WINDOW_START_SECS as u128
        && now.nanos > 0);
    after_start && of_day < WINDOW_END_SECS as u128
}

} // verus!
