use garden_light::cycle::{Action, Cycle, Event, Phase};
use garden_light::discovery::Category;
use garden_light::error::{CycleError, HubError};
use garden_light::hub::{action_path, group_path, request_url, sensor_path, AppConfig};
use garden_light::mappings::group::{Group, GroupAction, GroupState};
use garden_light::mappings::sensor::{Config, Sensor, State};
use garden_light::time_window::Instant;

/// 14:00 after the two-hour shift: inside the window.
const ACTIVE: Instant = Instant { secs: 19000 * 86400 + 12 * 3600, nanos: 0 };
/// 23:00 after the two-hour shift: outside the window.
const INACTIVE: Instant = Instant { secs: 19000 * 86400 + 21 * 3600, nanos: 0 };

fn sensor(kind: &str, state: State) -> Sensor {
    Sensor {
        sensor_type: Some(kind.to_string()),
        name: kind.to_string(),
        config: Config { on: true, reachable: None, battery: Some(90) },
        state,
    }
}

fn empty_state() -> State {
    State { lastupdated: None, temperature: None, lux: None, humidity: None, pressure: None }
}

fn garden(all_on: bool) -> Group {
    Group {
        id: "9".to_string(),
        name: "Garden".to_string(),
        state: GroupState { all_on, any_on: all_on },
        action: GroupAction { on: all_on, toggle: None },
    }
}

fn fetch_path(a: &Action) -> String {
    match a {
        Action::Fetch(p) => p.clone(),
        other => panic!("expected a fetch, got {:?}", other),
    }
}

/// Runs a cycle with a temperature and a light sensor up to the group read.
fn to_group_read(lux: u32) -> Cycle {
    let (mut c, a) = Cycle::start();
    assert_eq!(fetch_path(&a), "/sensors");
    let a = c.step(Event::SensorList(vec![
        ("1".to_string(), sensor("ZHATemperature", empty_state())),
        ("2".to_string(), sensor("ZHALightLevel", empty_state())),
    ]));
    assert_eq!(fetch_path(&a), "/sensors/1");
    let a = c.step(Event::SensorRecord(sensor("ZHATemperature", State { temperature: Some(2701), ..empty_state() })));
    assert_eq!(fetch_path(&a), "/sensors/2");
    let a = c.step(Event::SensorRecord(sensor("ZHALightLevel", State { lux: Some(lux), ..empty_state() })));
    assert_eq!(fetch_path(&a), "/groups");
    let a = c.step(Event::GroupList(vec![("9".to_string(), garden(false))]));
    assert_eq!(fetch_path(&a), "/groups/9");
    c
}

#[test]
fn end_to_end_dark_garden_switches_on() {
    let mut c = to_group_read(400);
    assert_eq!(c.readings, vec![(Category::Temperature, 27), (Category::Lux, 400)]);
    assert_eq!(c.lux, 400);
    let a = c.step(Event::GroupRecord(garden(false), ACTIVE));
    match a {
        Action::Switch(p, on) => {
            assert_eq!(p, "/groups/9/action");
            assert!(on);
        },
        other => panic!("expected a switch, got {:?}", other),
    }
    let a = c.step(Event::Switched);
    assert!(matches!(a, Action::Finish(Ok(()))));
    assert_eq!(c.phase, Phase::Done);
}

#[test]
fn cycle_bright_and_on_switches_off() {
    let mut c = to_group_read(1500);
    match c.step(Event::GroupRecord(garden(true), ACTIVE)) {
        Action::Switch(p, on) => {
            assert_eq!(p, "/groups/9/action");
            assert!(!on);
        },
        other => panic!("expected a switch, got {:?}", other),
    }
}

#[test]
fn cycle_outside_window_switches_off() {
    let mut c = to_group_read(10);
    match c.step(Event::GroupRecord(garden(true), INACTIVE)) {
        Action::Switch(_, on) => assert!(!on),
        other => panic!("expected a switch, got {:?}", other),
    }
}

#[test]
fn cycle_state_already_matches_is_no_op() {
    let mut c = to_group_read(400);
    let a = c.step(Event::GroupRecord(garden(true), ACTIVE));
    assert!(matches!(a, Action::Finish(Ok(()))));
}

#[test]
fn cycle_without_sensors_or_group() {
    let (mut c, _) = Cycle::start();
    let a = c.step(Event::SensorList(Vec::new()));
    assert_eq!(fetch_path(&a), "/groups");
    let a = c.step(Event::GroupList(Vec::new()));
    assert!(matches!(a, Action::Finish(Ok(()))));
    assert!(c.readings.is_empty());
}

#[test]
fn cycle_without_light_sensor_treats_lux_as_zero() {
    let (mut c, _) = Cycle::start();
    c.step(Event::SensorList(Vec::new()));
    c.step(Event::GroupList(vec![("9".to_string(), garden(false))]));
    match c.step(Event::GroupRecord(garden(false), ACTIVE)) {
        Action::Switch(_, on) => assert!(on),
        other => panic!("expected a switch, got {:?}", other),
    }
}

#[test]
fn cycle_missing_field_aborts() {
    let (mut c, _) = Cycle::start();
    c.step(Event::SensorList(vec![("1".to_string(), sensor("ZHAPressure", empty_state()))]));
    let a = c.step(Event::SensorRecord(sensor("ZHAPressure", empty_state())));
    assert!(matches!(a, Action::Finish(Err(CycleError::MissingField(Category::Pressure)))));
}

#[test]
fn cycle_hub_failure_aborts() {
    let (mut c, _) = Cycle::start();
    let a = c.step(Event::Failed(HubError::Transport));
    assert!(matches!(a, Action::Finish(Err(CycleError::Hub(HubError::Transport)))));
    let (mut c, _) = Cycle::start();
    let a = c.step(Event::Failed(HubError::Decode));
    assert!(matches!(a, Action::Finish(Err(CycleError::Hub(HubError::Decode)))));
}

#[test]
fn cycle_out_of_order_event() {
    let (mut c, _) = Cycle::start();
    let a = c.step(Event::Switched);
    assert!(matches!(a, Action::Finish(Err(CycleError::OutOfOrder))));
}

#[test]
fn paths_and_urls() {
    assert_eq!(sensor_path("12"), "/sensors/12");
    assert_eq!(group_path("3"), "/groups/3");
    assert_eq!(action_path("3"), "/groups/3/action");
    let config = AppConfig { api_url: "http://hub:80".to_string(), api_key: "SECRET-REDACTED".to_string() };
    assert_eq!(request_url(&config, "/sensors"), "http://hub:80/api/SECRET-REDACTED/sensors");
}
