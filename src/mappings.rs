//! Records of the hub's REST resources.
pub mod group;
pub mod sensor;
