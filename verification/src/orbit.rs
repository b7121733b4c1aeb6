//! Orbital elements of a body on an elliptical orbit about its parent.

use crate::scalar::Scalar;
use vstd::prelude::*;

verus! {

/// Why a set of orbital elements describes no ellipse.
#[derive(Clone, Copy, Debug, PartialEq, Eq, Structural)]
pub enum OrbitError {
    /// An element is an infinity or a NaN.
    NonFinite,
    /// The semi-major axis is below zero.
    NegativeSemiMajorAxis,
    /// The eccentricity is outside `[0, 1)`.
    EccentricityOutOfRange,
}

/// The elements of a Keplerian orbit in its parent's plane.
///
/// A semi-major axis of zero stands for a body that rests at its parent's
/// position. Angles are in radians; `initial_mean_anomaly` is the mean anomaly
/// at simulation time zero.
#[derive(Clone, Copy, Debug, PartialEq, Eq, Structural)]
pub struct Orbit {
    pub semi_major_axis: Scalar,
    pub eccentricity: Scalar,
    pub argument_of_periapsis: Scalar,
    pub initial_mean_anomaly: Scalar,
}

/// A position relative to the parent body.
#[derive(Clone, Copy, Debug, PartialEq, Eq, Structural)]
pub struct Position {
    pub x: Scalar,
    pub y: Scalar,
    pub z: Scalar,
}

impl Position {
    /// The parent's own position.
    pub open spec fn origin() -> Position {
        Position { x: Scalar::zero(), y: Scalar::zero(), z: Scalar::zero() }
    }
}

impl Orbit {
    /// Whether none of the four elements is an infinity or a NaN.
    pub open spec fn all_finite(&self) -> bool {
        &&& self.semi_major_axis.is_finite()
        &&& self.eccentricity.is_finite()
        &&& self.argument_of_periapsis.is_finite()
        &&& self.initial_mean_anomaly.is_finite()
    }

    /// The first reason, if any, for which the elements describe no ellipse.
    pub open spec fn fault(&self) -> Option<OrbitError> {
        if !self.all_finite() {
            Some(OrbitError::NonFinite)
        } else if self.semi_major_axis.scaled() < 0 {
            Some(OrbitError::NegativeSemiMajorAxis)
        } else if self.eccentricity.scaled() < 0 || !self.eccentricity.lt(Scalar::one()) {
            Some(OrbitError::EccentricityOutOfRange)
        } else {
            None
        }
    }

    /// Finite elements, a semi-major axis of at least zero and an
    /// eccentricity in `[0, 1)`.
    pub open spec fn is_valid_spec(&self) -> bool {
        self.fault() is None
    }

    /// Whether the eccentricity is zero.
    pub open spec fn is_circular_spec(&self) -> bool {
        self.eccentricity.is_zero()
    }

    /// Whether the semi-major axis is zero.
    pub open spec fn is_fixed_spec(&self) -> bool {
        self.semi_major_axis.is_zero()
    }

    /// Checks that the elements describe an ellipse, and says why if not.
    pub fn validate(&self) -> (r: Result<(), OrbitError>)
        ensures
            r == match self.fault() {
                Some(e) => Err::<(), OrbitError>(e),
                None => Ok::<(), OrbitError>(()),
            },
    {
        if !(self.semi_major_axis.is_finite() && self.eccentricity.is_finite()
            && self.argument_of_periapsis.is_finite() && self.initial_mean_anomaly.is_finite()) {
            return Err(OrbitError::NonFinite);
        }
        if !Scalar::zero().le(self.semi_major_axis) {
            return Err(OrbitError::NegativeSemiMajorAxis);
        }
        if !Scalar::zero().le(self.eccentricity) || !self.eccentricity.lt(Scalar::one()) {
            return Err(OrbitError::EccentricityOutOfRange);
        }
        Ok(())
    }

    /// Whether the elements describe an ellipse.
    #[verifier::when_used_as_spec(is_valid_spec)]
    pub fn is_valid(&self) -> (r: bool)
        ensures
            r == self.is_valid_spec(),
    {
        self.validate().is_ok()
    }

    /// Whether the orbit is a circle: its eccentricity is zero, of either
    /// sign.
    #[verifier::when_used_as_spec(is_circular_spec)]
    pub fn is_circular(&self) -> (r: bool)
        ensures
            r == self.is_circular_spec(),
    {
        self.eccentricity.is_zero()
    }

    /// Whether the body rests at its parent's position: the semi-major axis
    /// is zero, whatever the other three elements hold.
    #[verifier::when_used_as_spec(is_fixed_spec)]
    pub fn is_fixed(&self) -> (r: bool)
        ensures
            r == self.is_fixed_spec(),
    {
        self.semi_major_axis.is_zero()
    }

    /// The position of a body that rests at its parent: the origin, at every
    /// time and whatever eccentricity and angles the orbit holds. A body on
    /// an orbit with a semi-major axis other than zero has no such position:
    /// where it is depends on the time.
    pub fn fixed_position(&self) -> (r: Option<Position>)
        ensures
            self.semi_major_axis.is_zero() ==> r == Some(Position::origin()),
            !self.semi_major_axis.is_zero() ==> r is None,
    {
        if self.is_fixed() {
            Some(Position { x: Scalar::zero(), y: Scalar::zero(), z: Scalar::zero() })
        } else {
            None
        }
    }
}

} // verus!
