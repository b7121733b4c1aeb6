//! Single-precision numbers as plain bit patterns.
//!
//! Orbital elements and simulation times are IEEE 754 binary32 numbers. This
//! module never does rounding arithmetic on them. It classifies them, orders
//! them and changes their sign, all of which is exact, and states each
//! operation against the number that a bit pattern denotes.

use vstd::arithmetic::power2::{
    lemma2_to64, lemma_pow2_adds, lemma_pow2_pos, lemma_pow2_strictly_increases, lemma_pow2_unfold, pow2,
};
use vstd::prelude::*;

verus! {

/// Bit pattern of positive zero.
pub const ZERO_BITS: u32 = 0;

/// Bit pattern of `1.0`.
pub const ONE_BITS: u32 = 0x3f80_0000;

/// Bit pattern of positive infinity. Every pattern whose low 31 bits exceed
/// it is a NaN.
pub const INFINITY_BITS: u32 = 0x7f80_0000;

/// Bit pattern of negative infinity.
pub const NEGATIVE_INFINITY_BITS: u32 = 0xff80_0000;

/// An IEEE 754 binary32 number, held by its bit pattern.
///
/// Bit 31 is the sign, bits 30 to 23 the biased exponent and bits 22 to 0 the
/// fraction.
#[derive(Clone, Copy, Debug, PartialEq, Eq, Structural)]
pub struct Scalar {
    pub bits: u32,
}

impl Scalar {
    /// The low 31 bits: everything but the sign.
    pub open spec fn magnitude(self) -> nat {
        (self.bits % 0x8000_0000) as nat
    }

    /// The biased exponent field, `0..=255`.
    pub open spec fn exponent(self) -> nat {
        self.magnitude() / 0x80_0000
    }

    /// The fraction field, `0..2^23`.
    pub open spec fn fraction(self) -> nat {
        self.magnitude() % 0x80_0000
    }

    /// Whether the sign bit is set. Holds of `-0.0` too.
    pub open spec fn sign_bit(self) -> bool {
        self.bits >= 0x8000_0000
    }

    /// Whether the pattern is a NaN.
    pub open spec fn is_nan_spec(self) -> bool {
        self.magnitude() > 0x7f80_0000
    }

    /// Whether the pattern is a zero, a subnormal or a normal number.
    pub open spec fn is_finite_spec(self) -> bool {
        self.magnitude() < 0x7f80_0000
    }

    /// Whether the pattern is `+0.0` or `-0.0`.
    pub open spec fn is_zero_spec(self) -> bool {
        self.magnitude() == 0
    }

    /// The absolute value in units of `2^-149`, the spacing of the subnormal
    /// numbers, in which every finite binary32 number is a whole number.
    ///
    /// A subnormal number is `fraction * 2^-149`; a normal one is
    /// `(2^23 + fraction) * 2^(exponent - 150)`. The same formula puts the
    /// infinities at `2^277`, above every finite number.
    pub open spec fn scaled_magnitude(self) -> nat {
        if self.exponent() == 0 {
            self.fraction()
        } else {
            (0x80_0000 + self.fraction()) * pow2((self.exponent() - 1) as nat)
        }
    }

    /// The number in units of `2^-149`: for a finite pattern, exactly the
    /// number it denotes times `2^149`. Meaningless for a NaN.
    pub open spec fn scaled(self) -> int {
        if self.sign_bit() {
            -(self.scaled_magnitude() as int)
        } else {
            self.scaled_magnitude() as int
        }
    }

    /// `self < other` as IEEE 754 compares: false when either is a NaN,
    /// otherwise the order of the numbers denoted.
    pub open spec fn lt_spec(self, other: Scalar) -> bool {
        !self.is_nan_spec() && !other.is_nan_spec() && self.scaled() < other.scaled()
    }

    /// `self <= other` as IEEE 754 compares: false when either is a NaN.
    pub open spec fn le_spec(self, other: Scalar) -> bool {
        !self.is_nan_spec() && !other.is_nan_spec() && self.scaled() <= other.scaled()
    }

    /// `self >= other` as IEEE 754 compares: false when either is a NaN.
    pub open spec fn ge_spec(self, other: Scalar) -> bool {
        other.le_spec(self)
    }

    /// The pattern with the sign bit cleared.
    pub open spec fn abs_spec(self) -> Scalar {
        Scalar { bits: self.magnitude() as u32 }
    }

    /// `self` held to `[lower, upper]`: a NaN and anything below `lower`
    /// become `lower`, anything above `upper` becomes `upper`.
    pub open spec fn clamp_spec(self, lower: Scalar, upper: Scalar) -> Scalar {
        if self.is_nan_spec() || self.lt_spec(lower) {
            lower
        } else if upper.lt_spec(self) {
            upper
        } else {
            self
        }
    }

    /// Positive zero.
    pub open spec fn zero_spec() -> Scalar {
        Scalar { bits: ZERO_BITS }
    }

    /// The number one.
    pub open spec fn one_spec() -> Scalar {
        Scalar { bits: ONE_BITS }
    }

    /// The position of the pattern in the order of the numbers: the magnitude
    /// bits read as an integer, negated under a set sign bit.
    pub open spec fn ordinal(self) -> int {
        if self.sign_bit() {
            -(self.magnitude() as int)
        } else {
            self.magnitude() as int
        }
    }

    /// The number with the given bit pattern.
    pub fn from_bits(bits: u32) -> (r: Scalar)
        ensures
            r.bits == bits,
    {
        Scalar { bits }
    }

    /// The bit pattern.
    pub fn to_bits(self) -> (bits: u32)
        ensures
            bits == self.bits,
    {
        self.bits
    }

    /// Positive zero.
    #[verifier::when_used_as_spec(zero_spec)]
    pub fn zero() -> (r: Scalar)
        ensures
            r == Scalar::zero_spec(),
    {
        Scalar { bits: ZERO_BITS }
    }

    /// The number one.
    #[verifier::when_used_as_spec(one_spec)]
    pub fn one() -> (r: Scalar)
        ensures
            r == Scalar::one_spec(),
    {
        Scalar { bits: ONE_BITS }
    }

    fn magnitude_bits(self) -> (m: u32)
        ensures
            m == self.magnitude(),
    {
        let bits: u32 = self.bits;
        assert(bits & 0x7fff_ffff == bits % 0x8000_0000) by (bit_vector);
        bits & 0x7fff_ffff
    }

    fn position(self) -> (p: i64)
        ensures
            p == self.ordinal(),
    {
        let m: u32 = self.magnitude_bits();
        if self.bits >= 0x8000_0000 {
            -(m as i64)
        } else {
            m as i64
        }
    }

    /// Whether the number is a NaN.
    #[verifier::when_used_as_spec(is_nan_spec)]
    pub fn is_nan(self) -> (r: bool)
        ensures
            r == self.is_nan_spec(),
    {
        self.magnitude_bits() > INFINITY_BITS
    }

    /// Whether the number is neither a NaN nor an infinity.
    #[verifier::when_used_as_spec(is_finite_spec)]
    pub fn is_finite(self) -> (r: bool)
        ensures
            r == self.is_finite_spec(),
    {
        self.magnitude_bits() < INFINITY_BITS
    }

    /// Whether the number is zero, of either sign.
    #[verifier::when_used_as_spec(is_zero_spec)]
    pub fn is_zero(self) -> (r: bool)
        ensures
            r == self.is_zero_spec(),
    {
        self.magnitude_bits() == 0
    }

    /// `self < other`, false when either is a NaN.
    #[verifier::when_used_as_spec(lt_spec)]
    pub fn lt(self, other: Scalar) -> (r: bool)
        ensures
            r == self.lt_spec(other),
    {
        if self.is_nan() || other.is_nan() {
            return false;
        }
        proof {
            lemma_ordinal_orders(self, other);
        }
        self.position() < other.position()
    }

    /// `self <= other`, false when either is a NaN.
    #[verifier::when_used_as_spec(le_spec)]
    pub fn le(self, other: Scalar) -> (r: bool)
        ensures
            r == self.le_spec(other),
    {
        if self.is_nan() || other.is_nan() {
            return false;
        }
        proof {
            lemma_ordinal_orders(other, self);
        }
        self.position() <= other.position()
    }

    /// `self >= other`, false when either is a NaN.
    #[verifier::when_used_as_spec(ge_spec)]
    pub fn ge(self, other: Scalar) -> (r: bool)
        ensures
            r == self.ge_spec(other),
    {
        other.le(self)
    }

    /// The absolute value: the same magnitude with the sign bit cleared.
    #[verifier::when_used_as_spec(abs_spec)]
    pub fn abs(self) -> (r: Scalar)
        ensures
            r == self.abs_spec(),
            r.scaled() == self.scaled_magnitude(),
            r.is_nan() == self.is_nan(),
    {
        let m: u32 = self.magnitude_bits();
        Scalar { bits: m }
    }

    /// Holds the number to the interval `[lower, upper]`.
    ///
    /// With `lower <= upper` the result lies in the interval whatever `self`
    /// is, a NaN included.
    #[verifier::when_used_as_spec(clamp_spec)]
    pub fn clamp(self, lower: Scalar, upper: Scalar) -> (r: Scalar)
        ensures
            r == self.clamp_spec(lower, upper),
            lower.le_spec(upper) ==> lower.le_spec(r) && r.le_spec(upper),
    {
        if self.is_nan() || self.lt(lower) {
            lower
        } else if upper.lt(self) {
            upper
        } else {
            self
        }
    }
}

/// A larger magnitude field denotes a larger absolute value: the bit patterns
/// of the non-negative numbers are in the order of the numbers.
pub proof fn lemma_scaled_magnitude_increases(a: Scalar, b: Scalar)
    requires
        a.magnitude() < b.magnitude(),
    ensures
        a.scaled_magnitude() < b.scaled_magnitude(),
{
    let ea = a.exponent();
    let eb = b.exponent();
    let fa = a.fraction();
    let fb = b.fraction();
    if ea == eb {
        if ea != 0 {
            let p = pow2((ea - 1) as nat);
            lemma_pow2_pos((ea - 1) as nat);
            assert((0x80_0000 + fa) * p < (0x80_0000 + fb) * p) by (nonlinear_arith)
                requires
                    fa < fb,
                    p > 0,
            ;
        }
    } else {
        assert(ea < eb);
        let q = pow2((eb - 1) as nat);
        lemma_pow2_pos((eb - 1) as nat);
        assert(0x80_0000 * q <= (0x80_0000 + fb) * q) by (nonlinear_arith)
            requires
                fb >= 0,
                q > 0,
        ;
        assert(0x80_0000 <= 0x80_0000 * q) by (nonlinear_arith)
            requires
                q >= 1,
        ;
        if ea != 0 {
            let p = pow2((ea - 1) as nat);
            lemma_pow2_pos((ea - 1) as nat);
            lemma_pow2_unfold(ea);
            assert(pow2(ea) == 2 * p);
            assert((0x80_0000 + fa) * p < 0x80_0000 * (2 * p)) by (nonlinear_arith)
                requires
                    fa < 0x80_0000,
                    p > 0,
            ;
            if ea < eb - 1 {
                lemma_pow2_strictly_increases(ea, (eb - 1) as nat);
            }
            assert(pow2(ea) <= q);
            assert(0x80_0000 * pow2(ea) <= 0x80_0000 * q) by (nonlinear_arith)
                requires
                    pow2(ea) <= q,
            ;
        }
    }
}

/// The order of the numbers is the order of their ordinals, and two patterns
/// denote the same number exactly when their ordinals are equal.
pub proof fn lemma_ordinal_orders(a: Scalar, b: Scalar)
    ensures
        a.scaled() < b.scaled() <==> a.ordinal() < b.ordinal(),
        a.scaled() == b.scaled() <==> a.ordinal() == b.ordinal(),
{
    let zero = Scalar { bits: 0 };
    assert(zero.scaled_magnitude() == 0);
    if a.magnitude() > 0 {
        lemma_scaled_magnitude_increases(zero, a);
    }
    if b.magnitude() > 0 {
        lemma_scaled_magnitude_increases(zero, b);
    }
    if a.magnitude() < b.magnitude() {
        lemma_scaled_magnitude_increases(a, b);
    }
    if b.magnitude() < a.magnitude() {
        lemma_scaled_magnitude_increases(b, a);
    }
}

/// The number one is `2^149` units of `2^-149`, and zero is none.
pub proof fn lemma_scaled_one()
    ensures
        Scalar::one().scaled() == pow2(149),
        Scalar::zero().scaled() == 0,
{
    let one = Scalar::one();
    assert(one.exponent() == 127 && one.fraction() == 0);
    lemma2_to64();
    lemma_pow2_adds(23, 126);
    assert(pow2(23) == 0x80_0000);
}

} // verus!
