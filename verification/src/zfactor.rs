//! Choice of the equation that the compressibility-factor solver iterates.

use vstd::prelude::*;
use crate::binary64::Double;

verus! {

/// Smallest reduced pressure of the validated range: 0.1 as a bit pattern.
pub const REDUCED_PRESSURE_MIN: u64 = 0x3fb9_9999_9999_999a;

/// Largest reduced pressure of the validated range: 14 as a bit pattern.
pub const REDUCED_PRESSURE_MAX: u64 = 0x402c_0000_0000_0000;

/// The implicit equation solved for the compressibility factor.
#[derive(Clone, Copy, Debug, PartialEq, Eq, Structural)]
pub enum Formulation {
    /// Dranchuk-Purvis-Robinson equation in the reduced density.
    ReducedDensity,
    /// Asymptotic form in the auxiliary variable, for reduced pressures
    /// outside the validated range.
    Asymptotic,
}

/// `0.1 <= ppr <= 14`, as comparisons of binary64 values; false for a NaN.
pub open spec fn in_validated_range(ppr: Double) -> bool {
    (Double { bits: REDUCED_PRESSURE_MIN }).le_spec(ppr) && ppr.le_spec(
        (Double { bits: REDUCED_PRESSURE_MAX }),
    )
}

pub open spec fn formulation_spec(ppr: Double) -> Formulation {
    if in_validated_range(ppr) {
        Formulation::ReducedDensity
    } else {
        Formulation::Asymptotic
    }
}

/// The formulation for the reduced pressure `ppr`: the reduced-density
/// equation on the validated range, bounds included, the asymptotic form
/// everywhere else.
pub fn formulation(ppr: Double) -> (f: Formulation)
    ensures
        f == formulation_spec(ppr),
{
    let low = Double::from_bits(REDUCED_PRESSURE_MIN);
    let high = Double::from_bits(REDUCED_PRESSURE_MAX);
    if low.le(ppr) && ppr.le(high) {
        Formulation::ReducedDensity
    } else {
        Formulation::Asymptotic
    }
}

/// The validated range is the set of positive, finite bit patterns from that
/// of 0.1 to that of 14: a value is in it exactly when its sign bit is clear
/// and its bits lie between the two bounds.
pub proof fn lemma_validated_range_is_bit_interval(ppr: Double)
    ensures
        in_validated_range(ppr) <==> REDUCED_PRESSURE_MIN <= ppr.bits <= REDUCED_PRESSURE_MAX,
        in_validated_range(ppr) ==> ppr.finite() && ppr.positive(),
{
    let b = ppr.bits;
    assert(0x3fb9_9999_9999_999au64 & 0x7fff_ffff_ffff_ffff == 0x3fb9_9999_9999_999a)
        by (bit_vector);
    assert(0x402c_0000_0000_0000u64 & 0x7fff_ffff_ffff_ffff == 0x402c_0000_0000_0000)
        by (bit_vector);
    assert(b < 0x8000_0000_0000_0000 ==> b & 0x7fff_ffff_ffff_ffff == b) by (bit_vector);
    assert(b >= 0x8000_0000_0000_0000 ==> b == (b & 0x7fff_ffff_ffff_ffff)
        + 0x8000_0000_0000_0000) by (bit_vector);
}

/// The validated range has no gap: a value between two values of the range
/// belongs to it.
pub proof fn lemma_validated_range_is_convex(low: Double, mid: Double, high: Double)
    requires
        in_validated_range(low),
        in_validated_range(high),
        low.le_spec(mid),
        mid.le_spec(high),
    ensures
        formulation_spec(mid) == Formulation::ReducedDensity,
{
}

} // verus!
