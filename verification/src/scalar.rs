//! Single-precision scalars held by their bit patterns.
//!
//! A [`Scalar`] is the 32-bit encoding of a binary32 number: one sign bit,
//! eight exponent bits and twenty-three fraction bits. Its model is the
//! number it encodes, scaled by 2^149 so that every finite value is an
//! integer. Ordering scalars needs integer arithmetic only.

use vstd::arithmetic::mul::{lemma_mul_inequality, lemma_mul_strict_inequality};
use vstd::arithmetic::power2::{
    lemma2_to64, lemma_pow2_pos, lemma_pow2_strictly_increases, lemma_pow2_unfold, pow2,
};
use vstd::prelude::*;

verus! {

/// The bit that holds the sign.
pub const SIGN_BIT: u32 = 0x8000_0000;

/// The encoding of positive infinity: the largest magnitude that is a number.
pub const INFINITY_BITS: u32 = 0x7F80_0000;

/// The weight of the implicit leading bit of a significand, 2^23.
pub const HIDDEN_BIT: u32 = 0x80_0000;

/// The size of the number that a sign-free encoding `m` stands for, scaled by
/// 2^149. Encodings with exponent field 0 are subnormal and count from zero
/// in steps of one; every other encoding has an implicit leading bit and
/// doubles with each step of the exponent. The encoding of infinity counts as
/// the power of two that follows the largest finite number.
pub open spec fn scaled_magnitude(m: int) -> int {
    let exponent = m / (HIDDEN_BIT as int);
    let fraction = m % (HIDDEN_BIT as int);
    if exponent == 0 {
        fraction
    } else {
        (HIDDEN_BIT + fraction) * pow2((exponent - 1) as nat)
    }
}

/// A scaled magnitude lies within the bounds of its binade.
proof fn lemma_scaled_magnitude_bounds(m: int)
    requires
        0 <= m,
    ensures
        scaled_magnitude(m) < HIDDEN_BIT * pow2((m / (HIDDEN_BIT as int)) as nat),
        m / (HIDDEN_BIT as int) > 0 ==> HIDDEN_BIT * pow2((m / (HIDDEN_BIT as int) - 1) as nat)
            <= scaled_magnitude(m),
        0 <= scaled_magnitude(m),
        m > 0 ==> scaled_magnitude(m) > 0,
{
    let exponent = m / (HIDDEN_BIT as int);
    let fraction = m % (HIDDEN_BIT as int);
    if exponent == 0 {
        assert(pow2(0) == 1) by {
            lemma2_to64();
        }
    } else {
        let p = pow2((exponent - 1) as nat);
        lemma_pow2_pos((exponent - 1) as nat);
        lemma_pow2_unfold(exponent as nat);
        assert(pow2(exponent as nat) == 2 * p);
        lemma_mul_strict_inequality(HIDDEN_BIT + fraction, 2 * HIDDEN_BIT, p as int);
        lemma_mul_inequality(HIDDEN_BIT as int, HIDDEN_BIT + fraction, p as int);
        assert((2 * HIDDEN_BIT) * p == HIDDEN_BIT * (2 * p)) by (nonlinear_arith);
        assert(HIDDEN_BIT * p > 0) by (nonlinear_arith)
            requires
                p > 0,
        ;
    }
}

/// Larger sign-free encodings stand for larger numbers.
pub proof fn lemma_scaled_magnitude_increases(m1: int, m2: int)
    requires
        0 <= m1 < m2,
    ensures
        scaled_magnitude(m1) < scaled_magnitude(m2),
{
    let e1 = m1 / (HIDDEN_BIT as int);
    let e2 = m2 / (HIDDEN_BIT as int);
    let f1 = m1 % (HIDDEN_BIT as int);
    let f2 = m2 % (HIDDEN_BIT as int);
    if e1 == e2 {
        if e1 > 0 {
            let p = pow2((e1 - 1) as nat);
            lemma_pow2_pos((e1 - 1) as nat);
            lemma_mul_strict_inequality(HIDDEN_BIT + f1, HIDDEN_BIT + f2, p as int);
        }
    } else {
        assert(e1 < e2);
        lemma_scaled_magnitude_bounds(m1);
        lemma_scaled_magnitude_bounds(m2);
        if e1 < e2 - 1 {
            lemma_pow2_strictly_increases(e1 as nat, (e2 - 1) as nat);
        }
        lemma_mul_inequality(pow2(e1 as nat) as int, pow2((e2 - 1) as nat) as int, HIDDEN_BIT as int);
        assert(HIDDEN_BIT * pow2(e1 as nat) == pow2(e1 as nat) * HIDDEN_BIT) by (nonlinear_arith);
        assert(HIDDEN_BIT * pow2((e2 - 1) as nat) == pow2((e2 - 1) as nat) * HIDDEN_BIT)
            by (nonlinear_arith);
    }
}

/// A single-precision number, held as its 32-bit encoding.
#[derive(Clone, Copy, Debug)]
pub struct Scalar {
    pub bits: u32,
}

impl Scalar {
    /// Whether the sign bit is set.
    pub open spec fn is_negative(self) -> bool {
        self.bits >= SIGN_BIT
    }

    /// The encoding without its sign bit.
    pub open spec fn magnitude(self) -> int {
        if self.bits >= SIGN_BIT {
            self.bits - SIGN_BIT
        } else {
            self.bits as int
        }
    }

    /// Whether the encoding is not a number: its magnitude lies beyond
    /// infinity.
    pub open spec fn is_nan_spec(self) -> bool {
        self.magnitude() > INFINITY_BITS
    }

    /// The encoded number, scaled by 2^149. Both zeros have the value 0.
    /// Meaningful only where the scalar is a number.
    pub open spec fn scaled_value(self) -> int {
        if self.is_negative() {
            -scaled_magnitude(self.magnitude())
        } else {
            scaled_magnitude(self.magnitude())
        }
    }

    /// The position of the scalar in the order of the encodings: the
    /// magnitude, negated where the sign bit is set.
    pub open spec fn ordinal(self) -> int {
        if self.is_negative() {
            -self.magnitude()
        } else {
            self.magnitude()
        }
    }

    /// Numeric "greater than": both scalars are numbers and the first
    /// encodes the larger one. Nothing is greater or less than a scalar that
    /// is not a number, and the two zeros are equal.
    pub open spec fn gt_spec(self, other: Scalar) -> bool {
        &&& !self.is_nan_spec()
        &&& !other.is_nan_spec()
        &&& self.scaled_value() > other.scaled_value()
    }

    /// Numeric "less than": `other` is greater than `self`.
    pub open spec fn lt_spec(self, other: Scalar) -> bool {
        other.gt_spec(self)
    }

    /// The scalar with the given encoding.
    pub fn from_bits(bits: u32) -> (s: Scalar)
        ensures
            s.bits == bits,
    {
        Scalar { bits }
    }

    /// The encoding of the scalar.
    pub fn to_bits(self) -> (bits: u32)
        ensures
            bits == self.bits,
    {
        self.bits
    }

    /// Splits the encoding into its sign and its magnitude.
    fn parts(self) -> (p: (bool, u32))
        ensures
            p.0 == self.is_negative(),
            p.1 == self.magnitude(),
    {
        if self.bits >= SIGN_BIT {
            (true, self.bits - SIGN_BIT)
        } else {
            (false, self.bits)
        }
    }

    /// Whether the scalar is not a number.
    pub fn is_nan(self) -> (r: bool)
        ensures
            r == self.is_nan_spec(),
    {
        let (_, magnitude) = self.parts();
        magnitude > INFINITY_BITS
    }

    /// Whether `self` is numerically greater than `other`. The answer can
    /// be read off the encodings: neither is beyond infinity, and the first
    /// has the greater ordinal.
    pub fn gt(self, other: Scalar) -> (r: bool)
        ensures
            r == self.gt_spec(other),
            r == (!self.is_nan_spec() && !other.is_nan_spec() && self.ordinal()
                > other.ordinal()),
    {
        let (a_negative, a_magnitude) = self.parts();
        let (b_negative, b_magnitude) = other.parts();
        proof {
            lemma_ordinal_orders_values(self, other);
        }
        if a_magnitude > INFINITY_BITS || b_magnitude > INFINITY_BITS {
            false
        } else if a_negative {
            b_negative && a_magnitude < b_magnitude
        } else if b_negative {
            a_magnitude > 0 || b_magnitude > 0
        } else {
            a_magnitude > b_magnitude
        }
    }

    /// Whether `self` is numerically less than `other`.
    pub fn lt(self, other: Scalar) -> (r: bool)
        ensures
            r == self.lt_spec(other),
            r == (!self.is_nan_spec() && !other.is_nan_spec() && self.ordinal()
                < other.ordinal()),
    {
        other.gt(self)
    }
}

/// Scalars are ordered as their ordinals are: of two encodings the one with
/// the greater ordinal stands for the greater number, and equal ordinals
/// stand for equal numbers.
pub proof fn lemma_ordinal_orders_values(a: Scalar, b: Scalar)
    ensures
        a.ordinal() < b.ordinal() <==> a.scaled_value() < b.scaled_value(),
        a.ordinal() == b.ordinal() <==> a.scaled_value() == b.scaled_value(),
{
    let ma = a.magnitude();
    let mb = b.magnitude();
    lemma_scaled_magnitude_bounds(ma);
    lemma_scaled_magnitude_bounds(mb);
    if ma < mb {
        lemma_scaled_magnitude_increases(ma, mb);
    } else if mb < ma {
        lemma_scaled_magnitude_increases(mb, ma);
    }
}

} // verus!
