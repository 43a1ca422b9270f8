//! Crane lift-safety analysis engine.
//!
//! Given a crane's physical envelope, its current boom, outrigger and
//! counterweight configuration, a load and its rigging, the library computes
//! whether a lift is geometrically reachable, within rated capacity,
//! statically balanced and supported by the ground, and reports quantitative
//! margins.
//!
//! All physical quantities are held as fixed-point integers so that every
//! computation is exact and verifiable:
//! lengths in millimetres, masses in kilograms, angles in millidegrees,
//! pressures in pascals, and dimensionless factors in parts per thousand.

pub mod capacity;
pub mod chart;
pub mod configuration;
pub mod counterweight;
pub mod errors;
pub mod geom;
pub mod ground;
pub mod kinematics;
pub mod num;
pub mod outriggers;
pub mod parse;
pub mod rigging;
pub mod spec_catalog;
pub mod statics;
pub mod text;
pub mod trig;

