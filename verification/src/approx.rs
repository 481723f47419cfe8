//! Approximate equality of two numbers.
//!
//! Two numbers count as equal if they are equal, or if they differ by less
//! than a hundredth of the sum of their magnitudes. Near zero, where that sum
//! gives no footing, they must differ by less than a fixed small amount. Away
//! from zero two numbers of opposite signs differ by the whole of that sum,
//! and are never equal.
//!
//! The measurements (a difference, a sum, a quotient) are taken in binary64
//! arithmetic by the caller. What is decided from them is decided here.

use crate::scalar::{lemma_magnitude_value_sign, lemma_value_is_quotient, Scalar};
use vstd::arithmetic::power2::{lemma2_to64, lemma2_to64_rest, lemma_pow2_adds, pow2};
use vstd::prelude::*;

verus! {

/// The encoding of 0.01 (of the binary64 number nearest to it): the relative
/// difference below which two numbers count as equal.
pub const TOLERANCE: u64 = 0x3F84_7AE1_47AE_147B;

/// The encoding of two to the power -52, the gap between 1 and the next
/// binary64 number: a sum of magnitudes below it is treated as zero.
pub const EPSILON: u64 = 0x3CB0_0000_0000_0000;

/// The encoding of `TOLERANCE` times `EPSILON`: the difference below which
/// two numbers near zero count as equal.
pub const FLOOR: u64 = 0x3C44_7AE1_47AE_147B;

/// Whether `a` and `b` are approximately equal, given
/// - `spread`, the magnitude of their difference `a - b`,
/// - `extent`, the sum of their magnitudes, and
/// - `ratio`, `spread` divided by `extent` (by the largest finite number,
///   where `extent` is beyond it).
///
/// Where `a == b` the two are equal, whatever the measurements. Where they
/// are not, and either is a NaN or an infinity, they are not equal, whatever
/// the measurements. Of finite numbers: where either is zero or `extent` is
/// below `EPSILON`, they are equal exactly if `spread` is below `FLOOR`, and
/// `ratio` is not looked at. Elsewhere two numbers of opposite signs are not
/// equal, whatever the measurements, and two of the same sign are equal
/// exactly if `ratio` is below `TOLERANCE`.
pub open spec fn approx_spec(
    a: Scalar,
    b: Scalar,
    spread: Scalar,
    extent: Scalar,
    ratio: Scalar,
) -> bool {
    if a.eq_spec(b) {
        true
    } else if !a.is_finite_spec() || !b.is_finite_spec() {
        false
    } else if a.eq_spec(Scalar::from_bits(0)) || b.eq_spec(Scalar::from_bits(0)) || extent.lt_spec(
        Scalar::from_bits(EPSILON),
    ) {
        spread.lt_spec(Scalar::from_bits(FLOOR))
    } else if a.is_sign_negative_spec() != b.is_sign_negative_spec() {
        false
    } else {
        ratio.lt_spec(Scalar::from_bits(TOLERANCE))
    }
}

/// Decide whether `a` and `b` are approximately equal from the three
/// measurements that the caller took of them.
pub fn approx(a: Scalar, b: Scalar, spread: Scalar, extent: Scalar, ratio: Scalar) -> (close: bool)
    ensures
        close == approx_spec(a, b, spread, extent, ratio),
{
    if a.eq(b) {
        return true;
    }
    if !a.is_finite() || !b.is_finite() {
        return false;
    }
    let zero = Scalar::from_bits(0);
    if a.eq(zero) || b.eq(zero) || extent.lt(Scalar::from_bits(EPSILON)) {
        spread.lt(Scalar::from_bits(FLOOR))
    } else if a.is_sign_negative() != b.is_sign_negative() {
        false
    } else {
        ratio.lt(Scalar::from_bits(TOLERANCE))
    }
}

/// A number that is not a NaN is approximately equal to itself, whatever the
/// measurements say.
pub proof fn lemma_approx_reflexive(a: Scalar, spread: Scalar, extent: Scalar, ratio: Scalar)
    requires
        !a.is_nan_spec(),
    ensures
        approx_spec(a, a, spread, extent, ratio),
{
}

/// A NaN is approximately equal to nothing, and an infinity only to itself,
/// whatever the measurements say.
pub proof fn lemma_approx_not_finite(
    a: Scalar,
    b: Scalar,
    spread: Scalar,
    extent: Scalar,
    ratio: Scalar,
)
    requires
        !a.is_finite_spec() || !b.is_finite_spec(),
    ensures
        approx_spec(a, b, spread, extent, ratio) == a.eq_spec(b),
{
}

/// Away from zero a positive and a negative number are not approximately
/// equal, whatever the measurements say.
pub proof fn lemma_approx_opposite_signs(
    a: Scalar,
    b: Scalar,
    spread: Scalar,
    extent: Scalar,
    ratio: Scalar,
)
    requires
        !a.is_nan_spec(),
        !b.is_nan_spec(),
        a.value() < 0real < b.value() || b.value() < 0real < a.value(),
        !extent.lt_spec(Scalar::from_bits(EPSILON)),
    ensures
        !approx_spec(a, b, spread, extent, ratio),
{
    lemma_magnitude_value_sign(a.bits);
    lemma_magnitude_value_sign(b.bits);
    lemma_magnitude_value_sign(0);
}

/// Approximate equality does not depend on the order of the two numbers.
pub proof fn lemma_approx_symmetric(
    a: Scalar,
    b: Scalar,
    spread: Scalar,
    extent: Scalar,
    ratio: Scalar,
)
    ensures
        approx_spec(a, b, spread, extent, ratio) == approx_spec(b, a, spread, extent, ratio),
{
}

/// The thresholds are the numbers that they are named after: `EPSILON` is
/// two to the power -52, `TOLERANCE` is within half a unit in its last place
/// (two to the power -60) of 0.01, and `FLOOR` is their product.
pub proof fn lemma_threshold_values()
    ensures
        Scalar::from_bits(EPSILON).value() * 0x10_0000_0000_0000real == 1real,
        0real <= (Scalar::from_bits(TOLERANCE).value() - 1real / 100real)
            * 0x1000_0000_0000_0000real <= 1real,
        Scalar::from_bits(FLOOR).value() * 0x10_0000_0000_0000real == Scalar::from_bits(
            TOLERANCE,
        ).value(),
{
    lemma2_to64();
    lemma2_to64_rest();
    lemma_pow2_adds(52, 52);
    lemma_pow2_adds(59, 52);
    let two_52: int = 0x10_0000_0000_0000;
    let two_59: int = 0x800_0000_0000_0000;
    assert(pow2(104) == two_52 * two_52);
    assert(pow2(111) == two_59 * two_52);
    lemma_value_is_quotient(EPSILON, two_52, two_52 * two_52);
    lemma_value_is_quotient(TOLERANCE, 0x14_7AE1_47AE_147B, two_59);
    lemma_value_is_quotient(FLOOR, 0x14_7AE1_47AE_147B, two_59 * two_52);
    let e = Scalar::from_bits(EPSILON).value();
    let t = Scalar::from_bits(TOLERANCE).value();
    let f = Scalar::from_bits(FLOOR).value();
    assert((two_52 * two_52) as real == two_52 as real * two_52 as real) by (nonlinear_arith);
    assert((two_59 * two_52) as real == two_59 as real * two_52 as real) by (nonlinear_arith);
    assert(e * two_52 as real == 1real);
    assert(f * two_52 as real == t) by (nonlinear_arith)
        requires
            t * two_59 as real == 0x14_7AE1_47AE_147B as real,
            f * (two_59 as real * two_52 as real) == 0x14_7AE1_47AE_147B as real,
            two_59 == 0x800_0000_0000_0000,
            two_52 == 0x10_0000_0000_0000,
    ;
}

} // verus!
