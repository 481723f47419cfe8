//! The rules of the colour difference formulas.
//!
//! The CIE 2000 and CMC l:c formulas weigh differences of lightness, chroma
//! and hue. Their arithmetic is binary64 arithmetic and is done by the
//! caller. Which branch of a formula applies to two given colours is decided
//! here, from the quantities that the caller computed.

use crate::scalar::{lemma_magnitude_value_sign, lemma_neg, lemma_value_is_quotient, Scalar};
use vstd::arithmetic::power2::{lemma2_to64, lemma2_to64_rest, lemma_pow2_adds};
use vstd::prelude::*;

verus! {

/// The encoding of 0.00001 (of the binary64 number nearest to it): a product
/// of two chromas below it means that a hue is not defined.
pub const CHROMA_FLOOR: u64 = 0x3EE4_F8B5_88E3_68F1;

/// The encoding of half a turn in radians, the binary64 number nearest to pi.
pub const HALF_TURN: u64 = 0x4009_21FB_5444_2D18;

/// The encoding of the binary64 sum of `HALF_TURN` and `CHROMA_FLOOR`: half a
/// turn, with the slack that the mean of two hues is allowed.
pub const HALF_TURN_WIDE: u64 = 0x4009_2200_9271_8F51;

/// The encoding of a full turn in radians, twice `HALF_TURN`.
pub const FULL_TURN: u64 = 0x4019_21FB_5444_2D18;

/// The encoding of 164: the hue in degrees at which the CMC hue band begins.
pub const CMC_BAND_START: u64 = 0x4064_8000_0000_0000;

/// The encoding of 345: the hue in degrees at which the CMC hue band ends.
pub const CMC_BAND_END: u64 = 0x4075_9000_0000_0000;

/// The encoding of 16: the lightness below which the CMC lightness weight is
/// constant.
pub const CMC_LOW_LIGHTNESS: u64 = 0x4030_0000_0000_0000;

/// How the difference of two hue angles is taken.
#[derive(Clone, Copy, Debug, PartialEq, Eq, Structural)]
pub enum HueDifference {
    /// A colour has too little chroma for its hue to mean anything: the
    /// difference is zero.
    Undefined,
    /// The two hues are no more than half a turn apart: the difference is
    /// the second less the first.
    Direct,
    /// The second hue is more than half a turn ahead of the first: the
    /// difference is the second less the first, less a full turn.
    TurnBack,
    /// The second hue is more than half a turn behind the first: the
    /// difference is the second less the first, plus a full turn.
    TurnForward,
}

/// How the mean of two hue angles is taken.
#[derive(Clone, Copy, Debug, PartialEq, Eq, Structural)]
pub enum HueMean {
    /// A colour has too little chroma for its hue to mean anything: the sum
    /// of the two hues stands in for their mean.
    Sum,
    /// The two hues are no more than half a turn apart, or hardly more: half
    /// of their sum.
    Midpoint,
    /// The hues are further apart and their sum is below a full turn: half
    /// of their sum, plus half a turn.
    MidpointForward,
    /// The hues are further apart and their sum is a full turn or more: half
    /// of their sum, less half a turn.
    MidpointBack,
}

/// The rule for the difference of two hues, given whether the chroma is
/// `faint`, whether the hues are `near` each other, and whether the second
/// is `ahead` of the first.
pub open spec fn hue_difference_rule(faint: bool, near: bool, ahead: bool) -> HueDifference {
    if faint {
        HueDifference::Undefined
    } else if near {
        HueDifference::Direct
    } else if ahead {
        HueDifference::TurnBack
    } else {
        HueDifference::TurnForward
    }
}

/// The rule for the mean of two hues, given whether the chroma is `faint`,
/// whether the hues are `near` each other, and whether their sum is `low`.
pub open spec fn hue_mean_rule(faint: bool, near: bool, low: bool) -> HueMean {
    if faint {
        HueMean::Sum
    } else if near {
        HueMean::Midpoint
    } else if low {
        HueMean::MidpointForward
    } else {
        HueMean::MidpointBack
    }
}

/// How the difference of the hues `h1` and `h2` is taken: the chroma is
/// faint where the product of the two chromas is below `CHROMA_FLOOR`, the
/// hues are near where the magnitude of `difference` is at most `HALF_TURN`,
/// and the second is ahead where `h1 < h2`.
pub open spec fn hue_difference_spec(
    chroma_product: Scalar,
    h1: Scalar,
    h2: Scalar,
    difference: Scalar,
) -> HueDifference {
    hue_difference_rule(
        chroma_product.lt_spec(Scalar::from_bits(CHROMA_FLOOR)),
        difference.abs_spec().le_spec(Scalar::from_bits(HALF_TURN)),
        h1.lt_spec(h2),
    )
}

/// How the mean of two hues is taken: the chroma is faint where the product
/// of the two chromas is below `CHROMA_FLOOR`, the hues are near where the
/// magnitude of `difference` is at most `HALF_TURN_WIDE`, and the sum is low
/// where it is below `FULL_TURN`.
pub open spec fn hue_mean_spec(chroma_product: Scalar, difference: Scalar, sum: Scalar) -> HueMean {
    hue_mean_rule(
        chroma_product.lt_spec(Scalar::from_bits(CHROMA_FLOOR)),
        difference.abs_spec().le_spec(Scalar::from_bits(HALF_TURN_WIDE)),
        sum.lt_spec(Scalar::from_bits(FULL_TURN)),
    )
}

/// Decide how the difference of the hues `h1` and `h2` (in radians) is
/// taken, given the product of the two chromas and `difference`, which is
/// `h2` less `h1`.
pub fn hue_difference(chroma_product: Scalar, h1: Scalar, h2: Scalar, difference: Scalar) -> (rule:
    HueDifference)
    ensures
        rule == hue_difference_spec(chroma_product, h1, h2, difference),
{
    if chroma_product.lt(Scalar::from_bits(CHROMA_FLOOR)) {
        HueDifference::Undefined
    } else if difference.abs().le(Scalar::from_bits(HALF_TURN)) {
        HueDifference::Direct
    } else if h1.lt(h2) {
        HueDifference::TurnBack
    } else {
        HueDifference::TurnForward
    }
}

/// Decide how the mean of two hues (in radians) is taken, given the product
/// of the two chromas, the `difference` of the two hues (its sign is not
/// looked at) and their `sum`.
pub fn hue_mean(chroma_product: Scalar, difference: Scalar, sum: Scalar) -> (rule: HueMean)
    ensures
        rule == hue_mean_spec(chroma_product, difference, sum),
{
    if chroma_product.lt(Scalar::from_bits(CHROMA_FLOOR)) {
        HueMean::Sum
    } else if difference.abs().le(Scalar::from_bits(HALF_TURN_WIDE)) {
        HueMean::Midpoint
    } else if sum.lt(Scalar::from_bits(FULL_TURN)) {
        HueMean::MidpointForward
    } else {
        HueMean::MidpointBack
    }
}

/// Whether the hue of the reference colour (in degrees) lies in the band
/// from 164 to 345, ends included, where the CMC hue weight has its second
/// form.
pub fn cmc_hue_in_band(hue: Scalar) -> (banded: bool)
    ensures
        banded == (!hue.is_nan_spec() && 164real <= hue.value() <= 345real),
{
    proof {
        lemma_threshold_values();
    }
    Scalar::from_bits(CMC_BAND_START).le(hue) && hue.le(Scalar::from_bits(CMC_BAND_END))
}

/// Whether the lightness of the reference colour is below 16, where the CMC
/// lightness weight is constant.
pub fn cmc_lightness_is_low(lightness: Scalar) -> (low: bool)
    ensures
        low == (!lightness.is_nan_spec() && lightness.value() < 16real),
{
    proof {
        lemma_threshold_values();
    }
    lightness.lt(Scalar::from_bits(CMC_LOW_LIGHTNESS))
}

/// The rule for the difference of two hues, seen from the other hue.
pub open spec fn exchanged(rule: HueDifference) -> HueDifference {
    match rule {
        HueDifference::TurnBack => HueDifference::TurnForward,
        HueDifference::TurnForward => HueDifference::TurnBack,
        other => other,
    }
}

/// Exchanging the two colours exchanges the two turns and nothing else,
/// wherever the hues are unequal, or near each other, or the chroma is faint.
/// (Exchanging them changes the sign of the difference of their hues.)
pub proof fn lemma_hue_difference_exchanged(
    chroma_product: Scalar,
    h1: Scalar,
    h2: Scalar,
    difference: Scalar,
)
    requires
        h1.lt_spec(h2) || h2.lt_spec(h1) || hue_difference_spec(chroma_product, h1, h2, difference)
            == HueDifference::Direct || hue_difference_spec(chroma_product, h1, h2, difference)
            == HueDifference::Undefined,
    ensures
        hue_difference_spec(chroma_product, h2, h1, difference.neg_spec()) == exchanged(
            hue_difference_spec(chroma_product, h1, h2, difference),
        ),
{
    lemma_neg(difference);
}

/// Where the two hues do not differ, their difference is taken as zero or
/// as it is: there is no turn.
pub proof fn lemma_hue_difference_of_same(
    chroma_product: Scalar,
    h1: Scalar,
    h2: Scalar,
    difference: Scalar,
)
    requires
        difference.eq_spec(Scalar::from_bits(0)),
    ensures
        hue_difference_spec(chroma_product, h1, h2, difference) == HueDifference::Undefined
            || hue_difference_spec(chroma_product, h1, h2, difference) == HueDifference::Direct,
{
    lemma_threshold_values();
    lemma_magnitude_value_sign(difference.bits);
    lemma_magnitude_value_sign(0);
}

/// Exchanging the two colours does not change how the mean of their hues is
/// taken. (Exchanging them changes the sign of the difference of their hues
/// and leaves the sum as it is.)
pub proof fn lemma_hue_mean_exchanged(chroma_product: Scalar, difference: Scalar, sum: Scalar)
    ensures
        hue_mean_spec(chroma_product, difference.neg_spec(), sum) == hue_mean_spec(
            chroma_product,
            difference,
            sum,
        ),
{
    lemma_neg(difference);
}

/// Where the two hues do not differ, their mean is their sum or half of it:
/// there is no turn.
pub proof fn lemma_hue_mean_of_same(chroma_product: Scalar, difference: Scalar, sum: Scalar)
    requires
        difference.eq_spec(Scalar::from_bits(0)),
    ensures
        hue_mean_spec(chroma_product, difference, sum) == HueMean::Sum || hue_mean_spec(
            chroma_product,
            difference,
            sum,
        ) == HueMean::Midpoint,
{
    lemma_threshold_values();
    lemma_magnitude_value_sign(difference.bits);
    lemma_magnitude_value_sign(0);
}

/// The magnitude of a real number.
pub open spec fn magnitude_of(x: real) -> real {
    if x < 0real {
        -x
    } else {
        x
    }
}

/// The difference of the hues `h1` and `h2` that a rule stands for, where a
/// full turn measures `turn`.
pub open spec fn hue_difference_value(rule: HueDifference, h1: real, h2: real, turn: real) -> real {
    match rule {
        HueDifference::Undefined => 0real,
        HueDifference::Direct => h2 - h1,
        HueDifference::TurnBack => h2 - h1 - turn,
        HueDifference::TurnForward => h2 - h1 + turn,
    }
}

/// The mean of the hues `h1` and `h2` that a rule stands for, where a full
/// turn measures `turn`.
pub open spec fn hue_mean_value(rule: HueMean, h1: real, h2: real, turn: real) -> real {
    match rule {
        HueMean::Sum => h1 + h2,
        HueMean::Midpoint => (h1 + h2) / 2real,
        HueMean::MidpointForward => (h1 + h2 + turn) / 2real,
        HueMean::MidpointBack => (h1 + h2 - turn) / 2real,
    }
}

/// The difference of two hues of colours that have chroma, in exact
/// arithmetic.
pub open spec fn exact_hue_difference(h1: real, h2: real, turn: real) -> real {
    let rule = hue_difference_rule(false, magnitude_of(h2 - h1) <= turn / 2real, h1 < h2);
    hue_difference_value(rule, h1, h2, turn)
}

/// The mean of two hues of colours that have chroma, in exact arithmetic,
/// where hues up to `slack` more than half a turn apart still count as near.
pub open spec fn exact_hue_mean(h1: real, h2: real, turn: real, slack: real) -> real {
    let rule = hue_mean_rule(
        false,
        magnitude_of(h1 - h2) <= turn / 2real + slack,
        h1 + h2 < turn,
    );
    hue_mean_value(rule, h1, h2, turn)
}

/// In exact arithmetic the difference of two hues is taken along the shorter
/// arc: it is at most half a turn either way, and it leads from the first
/// hue to the second, up to a full turn.
pub proof fn lemma_exact_difference_is_shorter_arc(h1: real, h2: real, turn: real)
    requires
        0real <= h1 < turn,
        0real <= h2 < turn,
    ensures
        -turn / 2real <= exact_hue_difference(h1, h2, turn) <= turn / 2real,
        h1 + exact_hue_difference(h1, h2, turn) == h2 || h1 + exact_hue_difference(h1, h2, turn)
            == h2 - turn || h1 + exact_hue_difference(h1, h2, turn) == h2 + turn,
{
}

/// In exact arithmetic, exchanging the two hues changes the sign of their
/// difference and nothing else.
pub proof fn lemma_exact_difference_antisymmetric(h1: real, h2: real, turn: real)
    requires
        turn >= 0real,
    ensures
        exact_hue_difference(h2, h1, turn) == -exact_hue_difference(h1, h2, turn),
{
}

/// The difference of a hue to itself is zero: by rule where the chroma is
/// faint, and in exact arithmetic elsewhere.
pub proof fn lemma_exact_difference_of_same(h: real, turn: real)
    requires
        turn >= 0real,
    ensures
        exact_hue_difference(h, h, turn) == 0real,
        hue_difference_value(HueDifference::Undefined, h, h, turn) == 0real,
{
}

/// In exact arithmetic the mean of two hues is a hue: it lies within the
/// turn.
pub proof fn lemma_exact_mean_in_turn(h1: real, h2: real, turn: real, slack: real)
    requires
        0real <= h1 < turn,
        0real <= h2 < turn,
    ensures
        0real <= exact_hue_mean(h1, h2, turn, slack) < turn,
{
}

/// In exact arithmetic the mean of two hues does not depend on their order.
pub proof fn lemma_exact_mean_symmetric(h1: real, h2: real, turn: real, slack: real)
    ensures
        exact_hue_mean(h2, h1, turn, slack) == exact_hue_mean(h1, h2, turn, slack),
{
}

/// In exact arithmetic the mean of a hue and itself is that hue.
pub proof fn lemma_exact_mean_of_same(h: real, turn: real, slack: real)
    requires
        turn >= 0real,
        slack >= 0real,
    ensures
        exact_hue_mean(h, h, turn, slack) == h,
{
}

/// In exact arithmetic and without slack, the mean of two hues lies halfway
/// along the shorter arc from the first to the second.
pub proof fn lemma_exact_mean_bisects(h1: real, h2: real, turn: real)
    requires
        0real <= h1 < turn,
        0real <= h2 < turn,
    ensures
        exact_hue_difference(h1, exact_hue_mean(h1, h2, turn, 0real), turn)
            == exact_hue_difference(h1, h2, turn) / 2real,
        exact_hue_difference(exact_hue_mean(h1, h2, turn, 0real), h2, turn)
            == exact_hue_difference(h1, h2, turn) / 2real,
{
}

/// The thresholds are the numbers that they are named after. The whole
/// numbers are exact. `CHROMA_FLOOR` is within half a unit in its last place
/// (two to the power -70) of 0.00001. `HALF_TURN` is pi to sixteen digits,
/// `FULL_TURN` is twice `HALF_TURN`, and `HALF_TURN_WIDE` is within half a
/// unit in its last place (two to the power -52) of the sum of `HALF_TURN`
/// and `CHROMA_FLOOR`.
pub proof fn lemma_threshold_values()
    ensures
        Scalar::from_bits(CMC_BAND_START).value() == 164real,
        Scalar::from_bits(CMC_BAND_END).value() == 345real,
        Scalar::from_bits(CMC_LOW_LIGHTNESS).value() == 16real,
        magnitude_of(Scalar::from_bits(CHROMA_FLOOR).value() - 1real / 100000real)
            * 0x40_0000_0000_0000_0000real <= 1real,
        3141592653589793real / 1000000000000000real < Scalar::from_bits(HALF_TURN).value()
            < 3141592653589794real / 1000000000000000real,
        Scalar::from_bits(FULL_TURN).value() == 2real * Scalar::from_bits(HALF_TURN).value(),
        magnitude_of(
            Scalar::from_bits(HALF_TURN_WIDE).value() - (Scalar::from_bits(HALF_TURN).value()
                + Scalar::from_bits(CHROMA_FLOOR).value()),
        ) * 0x10_0000_0000_0000real <= 1real,
{
    lemma2_to64();
    lemma2_to64_rest();
    lemma_pow2_adds(64, 5);
    lemma_value_is_quotient(CMC_BAND_START, 0x14_8000_0000_0000, 0x2000_0000_0000);
    lemma_value_is_quotient(CMC_BAND_END, 0x15_9000_0000_0000, 0x1000_0000_0000);
    lemma_value_is_quotient(CMC_LOW_LIGHTNESS, 0x10_0000_0000_0000, 0x1_0000_0000_0000);
    lemma_value_is_quotient(CHROMA_FLOOR, 0x14_F8B5_88E3_68F1, 0x20_0000_0000_0000_0000);
    lemma_value_is_quotient(HALF_TURN, 0x19_21FB_5444_2D18, 0x8_0000_0000_0000);
    lemma_value_is_quotient(HALF_TURN_WIDE, 0x19_2200_9271_8F51, 0x8_0000_0000_0000);
    lemma_value_is_quotient(FULL_TURN, 0x19_21FB_5444_2D18, 0x4_0000_0000_0000);
}

} // verus!
