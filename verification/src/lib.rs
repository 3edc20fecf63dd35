//! A digital twin of a small water-treatment plant.
//!
//! The plant simulation, the controller-node point stores, the aggregation
//! of point reads back into device records, and the snapshot broadcast hub
//! all live here as verified code. Every physical quantity is carried as a
//! fixed-point integer in milli-units (one thousandth of the engineering
//! unit), so arithmetic on it is exact and provable; the process edges that
//! turn these into floats, sockets and tasks live outside the library.

pub mod devices;
pub mod hub;
pub mod laws;
pub mod node;
pub mod physics;
pub mod plant;
pub mod points;
pub mod scada;
pub mod status_text;
