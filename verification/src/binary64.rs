//! IEEE-754 binary64 values as bit patterns.

use vstd::prelude::*;
use vstd::arithmetic::power2::{
    lemma_pow2_pos, lemma_pow2_strictly_increases, lemma_pow2_unfold, pow2,
};

verus! {

/// Mask of the exponent and fraction fields.
pub const MAGNITUDE_MASK: u64 = 0x7fff_ffff_ffff_ffff;

/// Bit pattern of positive infinity; every larger magnitude is a NaN.
pub const INFINITY_BITS: u64 = 0x7ff0_0000_0000_0000;

/// A binary64 value, held as its 64 bits.
#[derive(Clone, Copy, Debug)]
pub struct Double {
    pub bits: u64,
}

/// Exponent and fraction fields of a bit pattern.
pub open spec fn magnitude(bits: u64) -> u64 {
    bits & MAGNITUDE_MASK
}

/// Two to the power 52: the weight of the exponent field in a magnitude.
pub const EXPONENT_UNIT: u64 = 0x0010_0000_0000_0000;

/// The integer significand of a magnitude: its fraction field, with the
/// implicit leading one unless the exponent field is zero.
pub open spec fn significand(magnitude: u64) -> int {
    if magnitude / EXPONENT_UNIT == 0 {
        (magnitude % EXPONENT_UNIT) as int
    } else {
        magnitude % EXPONENT_UNIT + EXPONENT_UNIT
    }
}

/// The binary scale of a magnitude, counted from that of the subnormal
/// numbers: the number it stands for is `significand * 2^(scale - 1074)`.
pub open spec fn scale(magnitude: u64) -> nat {
    if magnitude / EXPONENT_UNIT == 0 {
        0
    } else {
        (magnitude / EXPONENT_UNIT - 1) as nat
    }
}

/// Whether the sign bit is set.
pub open spec fn sign_bit(bits: u64) -> bool {
    bits >= 0x8000_0000_0000_0000
}

impl Double {
    /// The value is a NaN.
    pub open spec fn nan(self) -> bool {
        magnitude(self.bits) > INFINITY_BITS
    }

    /// The value is neither a NaN nor an infinity.
    pub open spec fn finite(self) -> bool {
        magnitude(self.bits) < INFINITY_BITS
    }

    /// Position of a non-NaN value on the number line: equal for equal
    /// numbers (both zeros map to 0) and smaller for smaller numbers.
    pub open spec fn rank(self) -> int {
        if sign_bit(self.bits) {
            -(magnitude(self.bits) as int)
        } else {
            magnitude(self.bits) as int
        }
    }

    /// The number that a finite value stands for, multiplied by two to the
    /// power 1074, which makes it an integer.
    pub open spec fn scaled_value(self) -> int {
        let m = magnitude(self.bits);
        if sign_bit(self.bits) {
            -(significand(m) * pow2(scale(m)))
        } else {
            significand(m) * pow2(scale(m))
        }
    }

    pub fn from_bits(bits: u64) -> (d: Double)
        ensures
            d.bits == bits,
    {
        Double { bits }
    }

    pub fn to_bits(self) -> (bits: u64)
        ensures
            bits == self.bits,
    {
        self.bits
    }

    /// Sign, integer significand and binary scale of the value: for a finite
    /// value the number `significand * 2^(scale - 1074)`, negated when the
    /// sign is set.
    pub fn integer_decode(self) -> (parts: (bool, u64, u32))
        ensures
            parts.0 == sign_bit(self.bits),
            parts.1 == significand(magnitude(self.bits)),
            parts.2 == scale(magnitude(self.bits)),
    {
        let m = self.magnitude_bits();
        let exponent = m / EXPONENT_UNIT;
        let fraction = m % EXPONENT_UNIT;
        assert(exponent <= 0x7ff);
        if exponent == 0 {
            (self.is_sign_negative(), fraction, 0)
        } else {
            (self.is_sign_negative(), fraction + EXPONENT_UNIT, (exponent - 1) as u32)
        }
    }

    /// Numeric `<`: false as soon as either side is a NaN.
    pub open spec fn lt_spec(self, other: Double) -> bool {
        !self.nan() && !other.nan() && self.rank() < other.rank()
    }

    /// Numeric `<=`: false as soon as either side is a NaN.
    pub open spec fn le_spec(self, other: Double) -> bool {
        !self.nan() && !other.nan() && self.rank() <= other.rank()
    }

    /// Numeric `==`: the two zeros are equal, a NaN equals nothing.
    pub open spec fn eq_spec(self, other: Double) -> bool {
        !self.nan() && !other.nan() && self.rank() == other.rank()
    }

    /// Strictly greater than zero; false for both zeros and for a NaN.
    pub open spec fn positive(self) -> bool {
        !self.nan() && self.rank() > 0
    }

    /// Either of the two zeros.
    pub open spec fn zero(self) -> bool {
        magnitude(self.bits) == 0
    }

    fn magnitude_bits(self) -> (m: u64)
        ensures
            m == magnitude(self.bits),
            m <= MAGNITUDE_MASK,
            sign_bit(self.bits) ==> self.bits == m + 0x8000_0000_0000_0000,
            !sign_bit(self.bits) ==> self.bits == m,
    {
        let bits = self.bits;
        assert(bits & 0x7fff_ffff_ffff_ffff <= 0x7fff_ffff_ffff_ffff) by (bit_vector);
        assert(bits >= 0x8000_0000_0000_0000 ==> bits == (bits & 0x7fff_ffff_ffff_ffff)
            + 0x8000_0000_0000_0000) by (bit_vector);
        assert(bits < 0x8000_0000_0000_0000 ==> bits == bits & 0x7fff_ffff_ffff_ffff)
            by (bit_vector);
        bits & MAGNITUDE_MASK
    }

    pub fn is_nan(self) -> (r: bool)
        ensures
            r == self.nan(),
    {
        self.magnitude_bits() > INFINITY_BITS
    }

    pub fn is_infinite(self) -> (r: bool)
        ensures
            r == (!self.nan() && !self.finite()),
            r == (magnitude(self.bits) == INFINITY_BITS),
    {
        self.magnitude_bits() == INFINITY_BITS
    }

    pub fn is_finite(self) -> (r: bool)
        ensures
            r == self.finite(),
    {
        self.magnitude_bits() < INFINITY_BITS
    }

    pub fn is_zero(self) -> (r: bool)
        ensures
            r == self.zero(),
            r == self.eq_spec((Double { bits: 0 })),
    {
        assert(0u64 & 0x7fff_ffff_ffff_ffff == 0) by (bit_vector);
        self.magnitude_bits() == 0
    }

    pub fn is_sign_negative(self) -> (r: bool)
        ensures
            r == sign_bit(self.bits),
    {
        self.bits >= 0x8000_0000_0000_0000
    }

    /// `self > 0`, as the comparison of two binary64 values decides it.
    pub fn is_positive(self) -> (r: bool)
        ensures
            r == self.positive(),
            r == (Double { bits: 0 }).lt_spec(self),
    {
        assert(0u64 & 0x7fff_ffff_ffff_ffff == 0) by (bit_vector);
        let m = self.magnitude_bits();
        self.bits < 0x8000_0000_0000_0000 && m != 0 && m <= INFINITY_BITS
    }

    /// The value with its sign bit cleared.
    pub fn abs(self) -> (r: Double)
        ensures
            r.bits == magnitude(self.bits),
            !sign_bit(r.bits),
            r.nan() == self.nan(),
            !self.nan() && self.rank() < 0 ==> r.rank() == -self.rank(),
            !self.nan() && self.rank() >= 0 ==> r.rank() == self.rank(),
    {
        let m = self.magnitude_bits();
        assert(m & 0x7fff_ffff_ffff_ffff == m) by (bit_vector)
            requires
                m <= 0x7fff_ffff_ffff_ffff,
        ;
        Double { bits: m }
    }

    pub fn lt(self, other: Double) -> (r: bool)
        ensures
            r == self.lt_spec(other),
    {
        let a = self.magnitude_bits();
        let b = other.magnitude_bits();
        if a > INFINITY_BITS || b > INFINITY_BITS {
            false
        } else if self.is_sign_negative() {
            if other.is_sign_negative() {
                a > b
            } else {
                a != 0 || b != 0
            }
        } else {
            !other.is_sign_negative() && a < b
        }
    }

    pub fn le(self, other: Double) -> (r: bool)
        ensures
            r == self.le_spec(other),
    {
        let a = self.magnitude_bits();
        let b = other.magnitude_bits();
        if a > INFINITY_BITS || b > INFINITY_BITS {
            false
        } else if self.is_sign_negative() {
            !other.is_sign_negative() || a >= b
        } else if other.is_sign_negative() {
            a == 0 && b == 0
        } else {
            a <= b
        }
    }

    pub fn gt(self, other: Double) -> (r: bool)
        ensures
            r == other.lt_spec(self),
    {
        other.lt(self)
    }

    pub fn ge(self, other: Double) -> (r: bool)
        ensures
            r == other.le_spec(self),
    {
        other.le(self)
    }

    pub fn num_eq(self, other: Double) -> (r: bool)
        ensures
            r == self.eq_spec(other),
    {
        let a = self.magnitude_bits();
        let b = other.magnitude_bits();
        if a > INFINITY_BITS || b > INFINITY_BITS {
            false
        } else if a == 0 && b == 0 {
            true
        } else {
            self.bits == other.bits
        }
    }
}

proof fn lemma_product_order(a: int, b: int, p: int, q: int)
    by (nonlinear_arith)
    requires
        0 <= a <= b,
        0 < p <= q,
    ensures
        a * p <= b * q,
        a < b ==> a * p < b * q,
        a * p == 0 <==> a == 0,
{
}

/// Among finite magnitudes the larger bit pattern stands for the larger
/// number.
proof fn lemma_magnitude_orders_by_value(x: u64, y: u64)
    requires
        x < y < INFINITY_BITS,
    ensures
        significand(x) * pow2(scale(x)) < significand(y) * pow2(scale(y)),
{
    let unit = EXPONENT_UNIT as int;
    let px = pow2(scale(x)) as int;
    let py = pow2(scale(y)) as int;
    lemma_pow2_pos(scale(x));
    lemma_pow2_pos(scale(y));
    if x / EXPONENT_UNIT == y / EXPONENT_UNIT {
        lemma_product_order(significand(x), significand(y), px, py);
    } else {
        assert(x / EXPONENT_UNIT < y / EXPONENT_UNIT);
        assert(significand(y) >= unit);
        if x / EXPONENT_UNIT == 0 {
            assert(pow2(0) == 1) by {
                reveal_with_fuel(vstd::arithmetic::power::pow, 1);
                vstd::arithmetic::power2::lemma_pow2(0);
            }
            assert(significand(x) * px == significand(x)) by (nonlinear_arith)
                requires
                    px == 1,
            ;
            lemma_product_order(unit, significand(y), 1, py);
        } else {
            // significand(x) < 2 * unit, and one step up the scale doubles.
            let up = (scale(x) + 1) as nat;
            lemma_pow2_unfold(up);
            lemma_pow2_pos(up);
            if up < scale(y) {
                lemma_pow2_strictly_increases(up, scale(y));
            }
            assert(significand(x) * px < (2 * unit) * px) by (nonlinear_arith)
                requires
                    0 <= significand(x) < 2 * unit,
                    0 < px,
            ;
            assert((2 * unit) * px == unit * (2 * px)) by (nonlinear_arith);
            lemma_product_order(unit, significand(y), 2 * px, py);
        }
    }
}

/// The rank orders the finite values as the numbers that they stand for are
/// ordered: one value is below another, or equal to it, exactly when its
/// number is.
pub proof fn lemma_rank_orders_by_value(a: Double, b: Double)
    requires
        a.finite(),
        b.finite(),
    ensures
        a.rank() < b.rank() <==> a.scaled_value() < b.scaled_value(),
        a.rank() == b.rank() <==> a.scaled_value() == b.scaled_value(),
{
    let x = magnitude(a.bits);
    let y = magnitude(b.bits);
    let vx = significand(x) * pow2(scale(x));
    let vy = significand(y) * pow2(scale(y));
    lemma_pow2_pos(scale(x));
    lemma_pow2_pos(scale(y));
    lemma_product_order(significand(x), significand(x), pow2(scale(x)) as int, pow2(scale(x)) as int);
    lemma_product_order(significand(y), significand(y), pow2(scale(y)) as int, pow2(scale(y)) as int);
    assert(vx == 0 <==> x == 0);
    assert(vy == 0 <==> y == 0);
    if x < y {
        lemma_magnitude_orders_by_value(x, y);
    } else if y < x {
        lemma_magnitude_orders_by_value(y, x);
    }
}

} // verus!
