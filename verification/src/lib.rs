//! Keplerian orbit elements, planned transfers between orbits, and the
//! per-body schedule that applies their maneuvers as simulation time advances.

pub mod orbit;
pub mod planner;
pub mod prelude;
pub mod scalar;
pub mod solver;
pub mod transfer;
