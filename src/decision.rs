//! The on/off policy for the garden light group.
use vstd::prelude::*;

verus! {

/// Light level, in lux, that separates "dark" from "bright".
pub const LUX_THRESHOLD: u32 = 1000;

/// The state the group should be in: off outside the window, off when
/// brighter than the threshold, on when darker; `None` at the threshold
/// itself, where either state is kept.
pub open spec fn wanted_state(lux: u32, active: bool) -> Option<bool> {
    if !active || lux > LUX_THRESHOLD {
        Some(false)
    } else if lux < LUX_THRESHOLD {
        Some(true)
    } else {
        None
    }
}

/// The switch command owed for a light level, the state of the time
/// window and whether the group is on now: `Some(on)` to switch the group
/// to `on` when that is the wanted state and differs from the present one,
/// `None` to leave it as it is.
pub open spec fn switch_command(lux: u32, active: bool, all_on: bool) -> Option<bool> {
    match wanted_state(lux, active) {
        Some(w) => if w != all_on { Some(w) } else { None },
        None => None,
    }
}

/// Decides whether to switch the group. Inside the window the group goes
/// off when it is brighter than the threshold and on when it is darker;
/// outside the window it goes off. A command is issued only when it
/// changes the group's state.
pub fn decide(lux: u32, active: bool, all_on: bool) -> (r: Option<bool>)
    ensures
        r == switch_command(lux, active, all_on),
        r matches Some(on) ==> on != all_on,
{
    if !active {
        if all_on { Some(false) } else { None }
    } else if lux > LUX_THRESHOLD && all_on {
        Some(false)
    } else if lux < LUX_THRESHOLD && !all_on {
        Some(true)
    } else {
        None
    }
}

/// Deciding twice on the same light level and window, with the group in
/// the state that the first decision switched it to, issues no second
/// command: a pair of decisions switches the group at most once.
pub proof fn lemma_decision_idempotent(lux: u32, active: bool, all_on: bool)
    ensures
        switch_command(lux, active, all_on) matches Some(on) ==> switch_command(lux, active, on) is None,
{
}

} // verus!
