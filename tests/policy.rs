use garden_light::decision::{decide, LUX_THRESHOLD};
use garden_light::time_window::{is_in_timeframe, Instant};

const DAY: u64 = 19000 * 86400;

/// The instant whose two-hour shift lands at `h:m:s` of a day.
fn shifted_at(h: u64, m: u64, s: u64, nanos: u32) -> Instant {
    Instant { secs: DAY + h * 3600 + m * 60 + s - 7200, nanos }
}

#[test]
fn time_gate_boundaries() {
    assert!(is_in_timeframe(&shifted_at(13, 24, 0, 0)));
    assert!(!is_in_timeframe(&shifted_at(13, 22, 0, 0)));
    assert!(!is_in_timeframe(&shifted_at(22, 1, 0, 0)));
    assert!(!is_in_timeframe(&shifted_at(22, 0, 0, 0)));
}

#[test]
fn time_gate_exact_start() {
    assert!(!is_in_timeframe(&shifted_at(13, 23, 0, 0)));
    assert!(is_in_timeframe(&shifted_at(13, 23, 0, 1)));
    assert!(is_in_timeframe(&shifted_at(21, 59, 59, 999_999_999)));
}

#[test]
fn time_gate_shift_crosses_midnight() {
    // 23:30 UTC shifts to 01:30 of the next day.
    assert!(!is_in_timeframe(&Instant { secs: DAY + 23 * 3600 + 1800, nanos: 0 }));
    // 00:00 UTC shifts to 02:00.
    assert!(!is_in_timeframe(&Instant { secs: 0, nanos: 0 }));
    // 12:00 UTC shifts to 14:00.
    assert!(is_in_timeframe(&Instant { secs: DAY + 12 * 3600, nanos: 0 }));
}

#[test]
fn decide_bright_and_on_switches_off() {
    assert_eq!(LUX_THRESHOLD, 1000);
    assert_eq!(decide(1500, true, true), Some(false));
}

#[test]
fn decide_dark_and_off_switches_on() {
    assert_eq!(decide(500, true, false), Some(true));
}

#[test]
fn decide_outside_window_switches_off() {
    assert_eq!(decide(0, false, true), Some(false));
    assert_eq!(decide(5000, false, true), Some(false));
    assert_eq!(decide(0, false, false), None);
}

#[test]
fn decide_no_redundant_commands() {
    assert_eq!(decide(1500, true, false), None);
    assert_eq!(decide(500, true, true), None);
    assert_eq!(decide(1000, true, true), None);
    assert_eq!(decide(1000, true, false), None);
}

#[test]
fn decide_twice_switches_once() {
    for &(lux, active, all_on) in &[(1500, true, true), (500, true, false), (0, false, true), (1000, true, true)] {
        let first = decide(lux, active, all_on);
        let state = first.unwrap_or(all_on);
        assert_eq!(decide(lux, active, state), None);
    }
}
