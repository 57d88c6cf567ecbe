//! One control cycle as a state machine.
//!
//! The caller performs each request that an [`Action`] names and hands the
//! answer back as an [`Event`]; the cycle decides what comes next. A cycle
//! lists the sensors, reads the chosen sensor of each kind in the order
//! temperature, humidity, pressure, light level, lists the groups, reads the
//! garden group and, where the policy asks for it, switches that group.
//! Any failure ends the cycle.
use vstd::prelude::*;

use crate::decision::{decide, switch_command};
use crate::discovery::{discover, find_garden_group, garden_name, id_view, last_named, Category, SensorIds};
use crate::error::{CycleError, HubError};
use crate::hub::{
    action_path, action_path_spec, group_path, group_path_spec, groups_path, groups_path_spec,
    sensor_path, sensor_path_spec, sensors_path, sensors_path_spec,
};
use crate::mappings::group::Group;
use crate::mappings::sensor::Sensor;
use crate::readings::{raw_reading, read_value, scaled};
use crate::time_window::{in_window, is_in_timeframe, Instant};

verus! {

/// Where a cycle stands: which answer it waits for.
#[derive(Debug, Clone, Copy, PartialEq, Eq, Structural)]
pub enum Phase {
    ListingSensors,
    ReadingSensor(Category),
    ListingGroups,
    ReadingGroup,
    Switching,
    Done,
}

/// An answer of the hub, or the failure of a request.
#[derive(Debug)]
pub enum Event {
    /// The sensor listing, in the order in which it was walked.
    SensorList(Vec<(String, Sensor)>),
    /// The record of the sensor that was asked for.
    SensorRecord(Sensor),
    /// The group listing, in the order in which it was walked.
    GroupList(Vec<(String, Group)>),
    /// The record of the group that was asked for, with the time it came.
    GroupRecord(Group, Instant),
    /// The switch action was accepted.
    Switched,
    /// The request failed.
    Failed(HubError),
}

/// What the caller does next.
#[derive(Debug)]
pub enum Action {
    /// Read the resource at this path.
    Fetch(String),
    /// Send the switch action `{"on": bool}` to this path.
    Switch(String, bool),
    /// The cycle is over, with this outcome.
    Finish(Result<(), CycleError>),
}

/// The state of one control cycle.
#[derive(Debug)]
pub struct Cycle {
    pub phase: Phase,
    /// The sensor chosen for each kind.
    pub ids: SensorIds,
    /// The light level read in this cycle; 0 until one is read.
    pub lux: u32,
    /// The garden group, once found.
    pub group_id: Option<String>,
    /// The readings taken so far, in the order they were taken.
    pub readings: Vec<(Category, u32)>,
}

/// Position of a kind in the order of reading.
pub open spec fn rank(c: Category) -> nat {
    match c {
        Category::Temperature => 0,
        Category::Humidity => 1,
        Category::Pressure => 2,
        Category::Lux => 3,
    }
}

/// The kind at position `k` of the order of reading.
pub open spec fn category_at(k: nat) -> Category {
    if k == 0 {
        Category::Temperature
    } else if k == 1 {
        Category::Humidity
    } else if k == 2 {
        Category::Pressure
    } else {
        Category::Lux
    }
}

/// The first kind, from position `from` on, for which a sensor was chosen.
pub open spec fn next_present(ids: SensorIds, from: nat) -> Option<Category>
    decreases 4 - from,
{
    if from >= 4 {
        None
    } else if ids.id_of(category_at(from)) is Some {
        Some(category_at(from))
    } else {
        next_present(ids, from + 1)
    }
}

/// The cycle moved on to read the next chosen sensor from position `from`
/// on, or, with none left, to list the groups.
pub open spec fn fetches_next(a: Action, after: Cycle, ids: SensorIds, from: nat) -> bool {
    match next_present(ids, from) {
        Some(c) => after.phase == Phase::ReadingSensor(c) && (a matches Action::Fetch(p) && p@
            == sensor_path_spec(ids.id_of(c)->0@)),
        None => after.phase == Phase::ListingGroups && (a matches Action::Fetch(p) && p@
            == groups_path_spec()),
    }
}

/// The cycle is over with outcome `res`.
pub open spec fn finishes(a: Action, after: Cycle, res: Result<(), CycleError>) -> bool {
    after.phase == Phase::Done && (a matches Action::Finish(r) && r == res)
}

/// The event is the answer that a cycle in `phase` waits for.
pub open spec fn awaited(phase: Phase, e: Event) -> bool {
    match e {
        Event::SensorList(_) => phase == Phase::ListingSensors,
        Event::SensorRecord(_) => phase is ReadingSensor,
        Event::GroupList(_) => phase == Phase::ListingGroups,
        Event::GroupRecord(_, _) => phase == Phase::ReadingGroup,
        Event::Switched => phase == Phase::Switching,
        Event::Failed(_) => true,
    }
}

impl Cycle {
    /// The group is known while it is read or switched, and a sensor is
    /// read only when one was chosen for its kind.
    pub open spec fn wf(&self) -> bool {
        &&& (self.phase == Phase::ReadingGroup || self.phase == Phase::Switching) ==> self.group_id is Some
        &&& self.phase matches Phase::ReadingSensor(c) ==> self.ids.id_of(c) is Some
    }

    /// A fresh cycle, which first asks for the sensor listing.
    pub fn start() -> (r: (Cycle, Action))
        ensures
            r.0.wf(),
            r.0.phase == Phase::ListingSensors,
            r.0.lux == 0,
            r.0.group_id is None,
            r.0.readings@.len() == 0,
            r.1 matches Action::Fetch(p) && p@ == sensors_path_spec(),
    {
        let c = Cycle {
            phase: Phase::ListingSensors,
            ids: SensorIds { temperature: None, humidity: None, pressure: None, lux: None },
            lux: 0,
            group_id: None,
            readings: Vec::new(),
        };
        (c, Action::Fetch(sensors_path()))
    }

    /// Ends the cycle with outcome `res`.
    fn finish(&mut self, res: Result<(), CycleError>) -> (a: Action)
        ensures
            finishes(a, *final(self), res),
            final(self).wf(),
            final(self).ids == old(self).ids,
            final(self).lux == old(self).lux,
            final(self).group_id == old(self).group_id,
            final(self).readings@ == old(self).readings@,
    {
        self.phase = Phase::Done;
        Action::Finish(res)
    }

    /// Moves on to the next chosen sensor from position `from` on, or to
    /// the group listing.
    fn advance(&mut self, from: usize) -> (a: Action)
        requires
            from <= 4,
        ensures
            fetches_next(a, *final(self), old(self).ids, from as nat),
            final(self).wf(),
            final(self).ids == old(self).ids,
            final(self).lux == old(self).lux,
            final(self).group_id == old(self).group_id,
            final(self).readings@ == old(self).readings@,
        decreases 4 - from,
    {
        if from >= 4 {
            self.phase = Phase::ListingGroups;
            return Action::Fetch(groups_path());
        }
        let c = if from == 0 {
            Category::Temperature
        } else if from == 1 {
            Category::Humidity
        } else if from == 2 {
            Category::Pressure
        } else {
            Category::Lux
        };
        let chosen = match c {
            Category::Temperature => &self.ids.temperature,
            Category::Humidity => &self.ids.humidity,
            Category::Pressure => &self.ids.pressure,
            Category::Lux => &self.ids.lux,
        };
        match chosen {
            Some(id) => {
                let p = sensor_path(id.as_str());
                self.phase = Phase::ReadingSensor(c);
                Action::Fetch(p)
            },
            None => self.advance(from + 1),
        }
    }

    /// Takes the answer to the last action and returns the next one.
    pub fn step(&mut self, event: Event) -> (a: Action)
        requires
            old(self).wf(),
        ensures
            final(self).wf(),
            !awaited(old(self).phase, event) ==> finishes(a, *final(self), Err(CycleError::OutOfOrder)),
            event matches Event::Failed(e) ==> finishes(a, *final(self), Err(CycleError::Hub(e))),
            old(self).phase == Phase::ListingSensors ==> (event matches Event::SensorList(entries)
                ==> final(self).ids.chosen_from(entries@) && fetches_next(a, *final(self), final(self).ids, 0)
                && final(self).lux == old(self).lux && final(self).readings@ == old(self).readings@),
            old(self).phase matches Phase::ReadingSensor(c) ==> (event matches Event::SensorRecord(s)
                ==> match raw_reading(c, s.state) {
                    None => finishes(a, *final(self), Err(CycleError::MissingField(c))),
                    Some(v) => fetches_next(a, *final(self), old(self).ids, rank(c) + 1)
                        && final(self).ids == old(self).ids
                        && final(self).readings@.len() == old(self).readings@.len() + 1
                        && final(self).readings@.drop_last() == old(self).readings@
                        && final(self).readings@.last().0 == c
                        && final(self).readings@.last().1 as nat == scaled(c, v)
                        && final(self).lux == (if c == Category::Lux { v } else { old(self).lux }),
                }),
            old(self).phase == Phase::ListingGroups ==> (event matches Event::GroupList(entries)
                ==> match last_named(entries@, garden_name()) {
                    None => finishes(a, *final(self), Ok(())),
                    Some(gid) => final(self).phase == Phase::ReadingGroup
                        && id_view(final(self).group_id) == Some(gid)
                        && final(self).lux == old(self).lux
                        && (a matches Action::Fetch(p) && p@ == group_path_spec(gid)),
                }),
            old(self).phase == Phase::ReadingGroup ==> (event matches Event::GroupRecord(g, now)
                ==> match switch_command(old(self).lux, in_window(now), g.state.all_on) {
                    None => finishes(a, *final(self), Ok(())),
                    Some(on) => final(self).phase == Phase::Switching
                        && final(self).group_id == old(self).group_id
                        && (a matches Action::Switch(p, o) && o == on
                            && p@ == action_path_spec(old(self).group_id->0@)),
                }),
            (old(self).phase == Phase::Switching && event is Switched)
                ==> finishes(a, *final(self), Ok(())),
    {
        match event {
            Event::Failed(e) => self.finish(Err(CycleError::Hub(e))),
            Event::SensorList(entries) => {
                if self.phase != Phase::ListingSensors {
                    return self.finish(Err(CycleError::OutOfOrder));
                }
                self.ids = discover(&entries);
                self.advance(0)
            },
            Event::SensorRecord(s) => {
                let c = match self.phase {
                    Phase::ReadingSensor(c) => c,
                    _ => {
                        return self.finish(Err(CycleError::OutOfOrder));
                    },
                };
                match read_value(c, &s.state) {
                    Err(e) => self.finish(Err(e)),
                    Ok(v) => {
                        self.readings.push((c, v));
                        if c == Category::Lux {
                            self.lux = v;
                        }
                        let next: usize = match c {
                            Category::Temperature => 1,
                            Category::Humidity => 2,
                            Category::Pressure => 3,
                            Category::Lux => 4,
                        };
                        self.advance(next)
                    },
                }
            },
            Event::GroupList(entries) => {
                if self.phase != Phase::ListingGroups {
                    return self.finish(Err(CycleError::OutOfOrder));
                }
                match find_garden_group(&entries) {
                    None => self.finish(Ok(())),
                    Some(gid) => {
                        let p = group_path(gid.as_str());
                        self.group_id = Some(gid);
                        self.phase = Phase::ReadingGroup;
                        Action::Fetch(p)
                    },
                }
            },
            Event::GroupRecord(g, now) => {
                if self.phase != Phase::ReadingGroup {
                    return self.finish(Err(CycleError::OutOfOrder));
                }
                let active = is_in_timeframe(&now);
                match decide(self.lux, active, g.state.all_on) {
                    None => self.finish(Ok(())),
                    Some(on) => {
                        let p = match &self.group_id {
                            Some(gid) => action_path(gid.as_str()),
                            None => {
                                return self.finish(Err(CycleError::OutOfOrder));
                            },
                        };
                        self.phase = Phase::Switching;
                        Action::Switch(p, on)
                    },
                }
            },
            Event::Switched => {
                if self.phase != Phase::Switching {
                    return self.finish(Err(CycleError::OutOfOrder));
                }
                self.finish(Ok(()))
            },
        }
    }
}

} // verus!
