//! Decision logic of a garden-light controller driven by a smart-home hub.
//!
//! One control cycle lists the hub's sensors, picks one sensor per kind,
//! reads and normalises their values, finds the garden light group and
//! switches it only when the wanted state differs from the observed one.
//! Everything here is pure: the caller performs the hub requests.
pub mod cycle;
pub mod decision;
pub mod discovery;
pub mod error;
pub mod hub;
pub mod mappings;
pub mod readings;
pub mod text;
pub mod time_window;

