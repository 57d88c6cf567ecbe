//! Addresses of the hub's REST resources.
use vstd::prelude::*;
use vstd::string::*;

verus! {

/// Where the hub is and the key that authorises requests to it.
#[derive(Debug, Clone)]
pub struct AppConfig {
    pub api_url: String,
    pub api_key: String,
}

/// `{base}/api/{key}{path}`.
pub open spec fn url_of(base: Seq<char>, key: Seq<char>, path: Seq<char>) -> Seq<char> {
    base + "/api/"@ + key + path
}

/// The full address of `path` on the hub that `config` names.
pub fn request_url(config: &AppConfig, path: &str) -> (r: String)
    ensures
        r@ == url_of(config.api_url@, config.api_key@, path@),
{
    let mut url = config.api_url.clone();
    url.append("/api/");
    url.append(config.api_key.as_str());
    url.append(path);
    url
}

/// Path of the listing of all sensors.
pub open spec fn sensors_path_spec() -> Seq<char> {
    "/sensors"@
}

/// Path of one sensor.
pub open spec fn sensor_path_spec(id: Seq<char>) -> Seq<char> {
    "/sensors/"@ + id
}

/// Path of the listing of all groups.
pub open spec fn groups_path_spec() -> Seq<char> {
    "/groups"@
}

/// Path of one group.
pub open spec fn group_path_spec(id: Seq<char>) -> Seq<char> {
    "/groups/"@ + id
}

/// Path to which a group's switch action is sent.
pub open spec fn action_path_spec(id: Seq<char>) -> Seq<char> {
    "/groups/"@ + id + "/action"@
}

/// Path of the listing of all sensors.
pub fn sensors_path() -> (r: String)
    ensures
        r@ == sensors_path_spec(),
{
    String::from_str("/sensors")
}

/// Path of the sensor with id `id`.
pub fn sensor_path(id: &str) -> (r: String)
    ensures
        r@ == sensor_path_spec(id@),
{
    let mut p = String::from_str("/sensors/");
    p.append(id);
    p
}

/// Path of the listing of all groups.
pub fn groups_path() -> (r: String)
    ensures
        r@ == groups_path_spec(),
{
    String::from_str("/groups")
}

/// Path of the group with id `id`.
pub fn group_path(id: &str) -> (r: String)
    ensures
        r@ == group_path_spec(id@),
{
    let mut p = String::from_str("/groups/");
    p.append(id);
    p
}

/// Path to which the switch action of group `id` is sent.
pub fn action_path(id: &str) -> (r: String)
    ensures
        r@ == action_path_spec(id@),
{
    let mut p = String::from_str("/groups/");
    p.append(id);
    p.append("/action");
    p
}

} // verus!
