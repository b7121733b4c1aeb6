use orbit_transfer::orbit::{Orbit, OrbitError, Position};
use orbit_transfer::scalar::Scalar;

fn scalar(x: f32) -> Scalar {
    Scalar::from_bits(x.to_bits())
}

fn orbit(a: f32, e: f32, w: f32, m: f32) -> Orbit {
    Orbit {
        semi_major_axis: scalar(a),
        eccentricity: scalar(e),
        argument_of_periapsis: scalar(w),
        initial_mean_anomaly: scalar(m),
    }
}

#[test]
fn valid_orbits_pass() {
    assert_eq!(orbit(2.0, 0.0, 0.0, 0.0).validate(), Ok(()));
    assert_eq!(orbit(4.0, 0.5, 1.0, -2.0).validate(), Ok(()));
    assert_eq!(orbit(1.0e11, 0.95, 6.0, 6.0).validate(), Ok(()));
    assert!(orbit(2.0, 0.0, 0.0, 0.0).is_valid());
}

#[test]
fn fixed_body_is_a_valid_orbit() {
    assert_eq!(orbit(0.0, 0.0, 0.0, 0.0).validate(), Ok(()));
    assert_eq!(orbit(-0.0, -0.0, 0.0, 0.0).validate(), Ok(()));
}

#[test]
fn eccentricity_just_below_one_is_valid() {
    let below = f32::from_bits(1.0f32.to_bits() - 1);
    assert_eq!(orbit(1.0, below, 0.0, 0.0).validate(), Ok(()));
}

#[test]
fn eccentricity_of_one_is_rejected() {
    assert_eq!(orbit(1.0, 1.0, 0.0, 0.0).validate(), Err(OrbitError::EccentricityOutOfRange));
    assert_eq!(orbit(1.0, 1.5, 0.0, 0.0).validate(), Err(OrbitError::EccentricityOutOfRange));
    assert!(!orbit(1.0, 1.0, 0.0, 0.0).is_valid());
}

#[test]
fn negative_eccentricity_is_rejected() {
    assert_eq!(orbit(1.0, -0.25, 0.0, 0.0).validate(), Err(OrbitError::EccentricityOutOfRange));
    let tiny = -f32::from_bits(1);
    assert_eq!(orbit(1.0, tiny, 0.0, 0.0).validate(), Err(OrbitError::EccentricityOutOfRange));
}

#[test]
fn negative_semi_major_axis_is_rejected() {
    assert_eq!(orbit(-1.0, 0.0, 0.0, 0.0).validate(), Err(OrbitError::NegativeSemiMajorAxis));
    assert_eq!(orbit(-1.0, 2.0, 0.0, 0.0).validate(), Err(OrbitError::NegativeSemiMajorAxis));
}

#[test]
fn non_finite_elements_are_rejected_first() {
    assert_eq!(orbit(f32::NAN, 0.0, 0.0, 0.0).validate(), Err(OrbitError::NonFinite));
    assert_eq!(orbit(1.0, f32::INFINITY, 0.0, 0.0).validate(), Err(OrbitError::NonFinite));
    assert_eq!(orbit(1.0, 0.0, f32::NEG_INFINITY, 0.0).validate(), Err(OrbitError::NonFinite));
    assert_eq!(orbit(1.0, 0.0, 0.0, f32::NAN).validate(), Err(OrbitError::NonFinite));
    assert_eq!(orbit(-1.0, 2.0, 0.0, f32::NAN).validate(), Err(OrbitError::NonFinite));
}

#[test]
fn circular_means_zero_eccentricity() {
    assert!(orbit(2.0, 0.0, 1.0, 2.0).is_circular());
    assert!(orbit(2.0, -0.0, 1.0, 2.0).is_circular());
    assert!(!orbit(2.0, 0.1, 0.0, 0.0).is_circular());
    assert!(!orbit(2.0, f32::from_bits(1), 0.0, 0.0).is_circular());
    assert!(!orbit(2.0, f32::NAN, 0.0, 0.0).is_circular());
}

#[test]
fn zero_semi_major_axis_fixes_the_body_whatever_else_holds() {
    let others = [0.0f32, -0.0, 0.3, 0.95, 1.0, -4.0, 1.0e30, f32::INFINITY, f32::NAN];
    for &e in &others {
        for &w in &others {
            for &m in &others {
                assert!(orbit(0.0, e, w, m).is_fixed());
                assert!(orbit(-0.0, e, w, m).is_fixed());
                let origin = Position { x: scalar(0.0), y: scalar(0.0), z: scalar(0.0) };
                assert_eq!(orbit(0.0, e, w, m).fixed_position(), Some(origin));
                assert_eq!(orbit(-0.0, e, w, m).fixed_position(), Some(origin));
            }
        }
    }
}

#[test]
fn non_zero_semi_major_axis_is_not_fixed() {
    assert!(!orbit(2.0, 0.0, 0.0, 0.0).is_fixed());
    assert!(!orbit(f32::from_bits(1), 0.0, 0.0, 0.0).is_fixed());
    assert!(!orbit(-1.0, 0.0, 0.0, 0.0).is_fixed());
    assert!(!orbit(f32::NAN, 0.0, 0.0, 0.0).is_fixed());
    assert_eq!(orbit(2.0, 0.0, 0.0, 0.0).fixed_position(), None);
    assert_eq!(orbit(f32::from_bits(1), 0.0, 0.0, 0.0).fixed_position(), None);
    assert_eq!(orbit(f32::NAN, 0.0, 0.0, 0.0).fixed_position(), None);
}

#[test]
fn orbits_compare_by_bit_pattern() {
    assert_eq!(orbit(2.0, 0.0, 0.0, 0.0), orbit(2.0, 0.0, 0.0, 0.0));
    assert_ne!(orbit(2.0, 0.0, 0.0, 0.0), orbit(2.0, -0.0, 0.0, 0.0));
    assert_ne!(orbit(2.0, 0.0, 0.0, 0.0), orbit(2.0, 0.0, 0.0, 1.0));
}
