use vstd::prelude::*;

verus! {

/// Configuration block of a sensor as the hub reports it.
#[derive(Debug, Clone, Copy)]
pub struct Config {
    pub on: bool,
    pub reachable: Option<bool>,
    pub battery: Option<u32>,
}

/// Measured values of a sensor; each field is present only for the
/// sensor kinds that report it.
#[derive(Debug, Clone)]
pub struct State {
    pub lastupdated: Option<String>,
    pub temperature: Option<u32>,
    pub lux: Option<u32>,
    pub humidity: Option<u32>,
    pub pressure: Option<u32>,
}

/// A sensor record: its type tag (such as `ZHATemperature`), name,
/// configuration and current state.
#[derive(Debug, Clone)]
pub struct Sensor {
    pub sensor_type: Option<String>,
    pub name: String,
    pub config: Config,
    pub state: State,
}

} // verus!
