use vstd::prelude::*;

verus! {

/// Aggregate on/off state of the lights of a group.
#[derive(Debug, Clone, Copy, PartialEq, Eq, Structural)]
pub struct GroupState {
    pub all_on: bool,
    pub any_on: bool,
}

/// The last action sent to a group.
#[derive(Debug, Clone, Copy, PartialEq, Eq, Structural)]
pub struct GroupAction {
    pub on: bool,
    pub toggle: Option<bool>,
}

/// A light group of the hub.
#[derive(Debug, Clone)]
pub struct Group {
    pub id: String,
    pub name: String,
    pub state: GroupState,
    pub action: GroupAction,
}

} // verus!
