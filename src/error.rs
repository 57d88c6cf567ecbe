//! Failures that end a control cycle.
use vstd::prelude::*;

use crate::discovery::Category;

verus! {

/// A hub request that did not yield a usable answer.
#[derive(Debug, Clone, Copy, PartialEq, Eq, Structural)]
pub enum HubError {
    /// The request could not be made or no answer came back.
    Transport,
    /// The answer did not have the expected shape.
    Decode,
}

/// Why a control cycle ended early. None of these ends the control loop:
/// the next tick starts a fresh cycle.
#[derive(Debug, Clone, Copy, PartialEq, Eq, Structural)]
pub enum CycleError {
    /// A hub request failed.
    Hub(HubError),
    /// A sensor of the given kind reported no value of that kind.
    MissingField(Category),
    /// An event arrived that the cycle was not waiting for.
    OutOfOrder,
}

} // verus!
