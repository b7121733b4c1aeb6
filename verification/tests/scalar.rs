use orbit_transfer::scalar::{Scalar, INFINITY_BITS, NEGATIVE_INFINITY_BITS, ONE_BITS, ZERO_BITS};

fn scalar(x: f32) -> Scalar {
    Scalar::from_bits(x.to_bits())
}

fn samples() -> Vec<f32> {
    vec![
        0.0,
        -0.0,
        f32::from_bits(1),
        -f32::from_bits(1),
        f32::from_bits(0x007f_ffff),
        f32::MIN_POSITIVE,
        -f32::MIN_POSITIVE,
        1.0e-20,
        0.333_333_34,
        0.5,
        0.949_999_99,
        0.95,
        1.0 - f32::EPSILON / 2.0,
        1.0,
        1.0 + f32::EPSILON,
        -1.0,
        2.0,
        3.0,
        4.0,
        std::f32::consts::PI,
        std::f32::consts::TAU,
        -std::f32::consts::TAU,
        1.0e11,
        -1.0e11,
        f32::MAX,
        f32::MIN,
        f32::INFINITY,
        f32::NEG_INFINITY,
        f32::NAN,
        -f32::NAN,
        f32::from_bits(0x7f80_0001),
        f32::from_bits(0xffff_ffff),
    ]
}

#[test]
fn bits_round_trip() {
    for x in samples() {
        assert_eq!(scalar(x).to_bits(), x.to_bits());
        assert_eq!(scalar(x).bits, x.to_bits());
    }
}

#[test]
fn named_constants_are_the_numbers() {
    assert_eq!(ZERO_BITS, 0.0f32.to_bits());
    assert_eq!(ONE_BITS, 1.0f32.to_bits());
    assert_eq!(INFINITY_BITS, f32::INFINITY.to_bits());
    assert_eq!(NEGATIVE_INFINITY_BITS, f32::NEG_INFINITY.to_bits());
    assert_eq!(Scalar::zero().to_bits(), 0.0f32.to_bits());
    assert_eq!(Scalar::one().to_bits(), 1.0f32.to_bits());
}

#[test]
fn classification_agrees_with_hardware() {
    for x in samples() {
        assert_eq!(scalar(x).is_nan(), x.is_nan(), "is_nan of {:#x}", x.to_bits());
        assert_eq!(scalar(x).is_finite(), x.is_finite(), "is_finite of {:#x}", x.to_bits());
        assert_eq!(scalar(x).is_zero(), x == 0.0, "is_zero of {:#x}", x.to_bits());
    }
}

#[test]
fn order_agrees_with_hardware() {
    for a in samples() {
        for b in samples() {
            let (sa, sb) = (scalar(a), scalar(b));
            assert_eq!(sa.lt(sb), a < b, "{:#x} < {:#x}", a.to_bits(), b.to_bits());
            assert_eq!(sa.le(sb), a <= b, "{:#x} <= {:#x}", a.to_bits(), b.to_bits());
            assert_eq!(sa.ge(sb), a >= b, "{:#x} >= {:#x}", a.to_bits(), b.to_bits());
        }
    }
}

#[test]
fn order_agrees_with_hardware_on_a_sweep_of_patterns() {
    let mut a: u32 = 0;
    for _ in 0..400 {
        let mut b: u32 = 0x0123_4567;
        for _ in 0..400 {
            let (fa, fb) = (f32::from_bits(a), f32::from_bits(b));
            assert_eq!(Scalar::from_bits(a).lt(Scalar::from_bits(b)), fa < fb, "{a:#x} < {b:#x}");
            assert_eq!(Scalar::from_bits(a).le(Scalar::from_bits(b)), fa <= fb, "{a:#x} <= {b:#x}");
            b = b.wrapping_mul(0x9e37_79b1).wrapping_add(0x7f4a_7c15);
        }
        a = a.wrapping_mul(0x85eb_ca6b).wrapping_add(0xc2b2_ae35);
    }
}

#[test]
fn signed_zeros_are_equal_in_order() {
    let (plus, minus) = (scalar(0.0), scalar(-0.0));
    assert!(plus.le(minus));
    assert!(minus.le(plus));
    assert!(!plus.lt(minus));
    assert!(!minus.lt(plus));
    assert!(plus != minus);
}

#[test]
fn nan_compares_false_with_everything() {
    let nan = scalar(f32::NAN);
    for x in samples() {
        assert!(!nan.lt(scalar(x)));
        assert!(!nan.le(scalar(x)));
        assert!(!nan.ge(scalar(x)));
        assert!(!scalar(x).lt(nan));
        assert!(!scalar(x).le(nan));
        assert!(!scalar(x).ge(nan));
    }
}

#[test]
fn abs_clears_the_sign() {
    for x in samples() {
        assert_eq!(scalar(x).abs().to_bits(), x.abs().to_bits(), "abs of {:#x}", x.to_bits());
    }
    assert_eq!(scalar(-3.0).abs(), scalar(3.0));
    assert_eq!(scalar(-0.0).abs(), scalar(0.0));
}

#[test]
fn clamp_holds_numbers_to_the_interval() {
    let (lower, upper) = (scalar(0.5), scalar(1.5));
    assert_eq!(scalar(1.0).clamp(lower, upper), scalar(1.0));
    assert_eq!(scalar(0.25).clamp(lower, upper), lower);
    assert_eq!(scalar(-7.0).clamp(lower, upper), lower);
    assert_eq!(scalar(1.75).clamp(lower, upper), upper);
    assert_eq!(scalar(f32::INFINITY).clamp(lower, upper), upper);
    assert_eq!(scalar(f32::NEG_INFINITY).clamp(lower, upper), lower);
    assert_eq!(scalar(0.5).clamp(lower, upper), lower);
    assert_eq!(scalar(1.5).clamp(lower, upper), upper);
}

#[test]
fn clamp_sends_nan_to_the_lower_bound() {
    let (lower, upper) = (scalar(0.5), scalar(1.5));
    assert_eq!(scalar(f32::NAN).clamp(lower, upper), lower);
}

#[test]
fn clamp_agrees_with_max_then_min() {
    let (lower, upper) = (0.05f32, 1.95f32);
    for x in samples() {
        let expected = x.max(lower).min(upper);
        let got = scalar(x).clamp(scalar(lower), scalar(upper));
        assert_eq!(got.to_bits(), expected.to_bits(), "clamp of {:#x}", x.to_bits());
    }
}

#[test]
fn clamp_result_lies_in_the_interval() {
    let (lower, upper) = (scalar(-2.0), scalar(2.0));
    for x in samples() {
        let r = scalar(x).clamp(lower, upper);
        assert!(lower.le(r) && r.le(upper), "clamp of {:#x}", x.to_bits());
    }
}
