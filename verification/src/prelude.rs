//! The names that most callers need.

pub use crate::orbit::{Orbit, OrbitError};
pub use crate::planner::{
    calculate_transfer, TangentialSolution, TransferError, TransferMethod, TransferNumbers,
    TransferSolution,
};
pub use crate::scalar::Scalar;
pub use crate::solver::{RootSearch, SearchStatus};
pub use crate::transfer::{execute_orbital_maneuvers, Maneuver, Transfer, TransferSchedule};
