//! Binary64 numbers carried as their encodings.
//!
//! A colour component is an IEEE 754 binary64 number. Such a number is held
//! here as the 64 bits that encode it: one sign bit, eleven exponent bits and
//! fifty-two fraction bits. The number that an encoding stands for is given
//! by [`Scalar::value`], and the comparisons of this module are proved to
//! order encodings as their values are ordered.

use vstd::arithmetic::power2::{lemma2_to64, lemma2_to64_rest, lemma_pow2_unfold, pow2};
use vstd::prelude::*;

verus! {

/// The sign bit of an encoding.
pub const SIGN_BIT: u64 = 0x8000_0000_0000_0000;

/// The encoding of positive infinity: every exponent bit set, no fraction bit.
pub const INFINITY_BITS: u64 = 0x7ff0_0000_0000_0000;

/// Two to the power 52: the weight of the implicit leading bit of a normal
/// number's significand.
pub const HIDDEN_BIT: u64 = 0x0010_0000_0000_0000;

/// The power of two with exponent `k`, for any integer `k`.
pub open spec fn exp2(k: int) -> real
    decreases (if k >= 0 { k } else { -k }),
{
    if k == 0 {
        1real
    } else if k > 0 {
        2real * exp2(k - 1)
    } else {
        exp2(k + 1) / 2real
    }
}

/// An encoding without its sign bit.
pub open spec fn magnitude(bits: u64) -> u64 {
    if bits >= SIGN_BIT {
        (bits - SIGN_BIT) as u64
    } else {
        bits
    }
}

/// The exponent field of an encoding, from 0 to 2047.
pub open spec fn exponent_field(bits: u64) -> int {
    magnitude(bits) as int / (HIDDEN_BIT as int)
}

/// The fraction field of an encoding, below two to the power 52.
pub open spec fn fraction_field(bits: u64) -> int {
    magnitude(bits) as int % (HIDDEN_BIT as int)
}

/// The integer significand: the fraction, with the implicit leading bit
/// unless the exponent field is zero.
pub open spec fn significand(bits: u64) -> int {
    if exponent_field(bits) == 0 {
        fraction_field(bits)
    } else {
        HIDDEN_BIT as int + fraction_field(bits)
    }
}

/// The exponent of two by which the integer significand is scaled.
pub open spec fn scale(bits: u64) -> int {
    if exponent_field(bits) == 0 {
        -1074
    } else {
        exponent_field(bits) - 1075
    }
}

/// The absolute value that an encoding stands for.
pub open spec fn magnitude_value(bits: u64) -> real {
    significand(bits) as real * exp2(scale(bits))
}

/// A position on the number line: encodings that are not NaN are ordered as
/// their positions are, and the two zeros share position 0.
pub open spec fn ordinal(bits: u64) -> int {
    if bits >= SIGN_BIT {
        -(magnitude(bits) as int)
    } else {
        magnitude(bits) as int
    }
}

/// A binary64 number, held as its encoding.
#[derive(Clone, Copy, Debug)]
pub struct Scalar {
    /// The encoding: the sign bit, the exponent field, the fraction field.
    pub bits: u64,
}

impl Scalar {
    /// The sign bit is set. This holds of negative numbers, of negative zero
    /// and of some NaNs.
    pub open spec fn is_sign_negative_spec(self) -> bool {
        self.bits >= SIGN_BIT
    }

    /// The encoding is one of a NaN.
    pub open spec fn is_nan_spec(self) -> bool {
        magnitude(self.bits) > INFINITY_BITS
    }

    /// The encoding is one of a finite number.
    pub open spec fn is_finite_spec(self) -> bool {
        magnitude(self.bits) < INFINITY_BITS
    }

    /// The number that the encoding stands for. For a finite number this is
    /// its exact value. An infinity is given the magnitude two to the power
    /// 1024, which lies beyond every finite number, so that the order of the
    /// values is the order of the numbers wherever neither is a NaN. The
    /// value of a NaN has no meaning.
    pub open spec fn value(self) -> real {
        if self.bits >= SIGN_BIT {
            -magnitude_value(self.bits)
        } else {
            magnitude_value(self.bits)
        }
    }

    /// The number is the whole number `n`, with a positive sign.
    pub open spec fn is_whole(self, n: int) -> bool {
        &&& self.is_finite_spec()
        &&& !self.is_sign_negative_spec()
        &&& self.value() == n as real
    }

    /// The number without its sign.
    pub open spec fn abs_spec(self) -> Scalar {
        Scalar { bits: magnitude(self.bits) }
    }

    /// The number with the opposite sign.
    pub open spec fn neg_spec(self) -> Scalar {
        if self.bits >= SIGN_BIT {
            Scalar { bits: (self.bits - SIGN_BIT) as u64 }
        } else {
            Scalar { bits: (self.bits + SIGN_BIT) as u64 }
        }
    }

    /// `self < other` as binary64 numbers: false where either is a NaN.
    pub open spec fn lt_spec(self, other: Scalar) -> bool {
        !self.is_nan_spec() && !other.is_nan_spec() && self.value() < other.value()
    }

    /// `self <= other` as binary64 numbers: false where either is a NaN.
    pub open spec fn le_spec(self, other: Scalar) -> bool {
        !self.is_nan_spec() && !other.is_nan_spec() && self.value() <= other.value()
    }

    /// `self == other` as binary64 numbers: false where either is a NaN, and
    /// true of the two zeros.
    pub open spec fn eq_spec(self, other: Scalar) -> bool {
        !self.is_nan_spec() && !other.is_nan_spec() && self.value() == other.value()
    }

    /// The number with the given encoding.
    pub open spec fn with_bits(bits: u64) -> Scalar {
        Scalar { bits }
    }

    /// The number with the given encoding.
    #[verifier::when_used_as_spec(with_bits)]
    pub fn from_bits(bits: u64) -> (s: Scalar)
        ensures
            s.bits == bits,
    {
        Scalar { bits }
    }

    /// The encoding of the number.
    pub fn to_bits(self) -> (bits: u64)
        ensures
            bits == self.bits,
    {
        self.bits
    }

    /// The number `n`, which binary64 holds exactly.
    pub fn from_u8(n: u8) -> (s: Scalar)
        ensures
            s.is_whole(n as int),
    {
        if n == 0 {
            proof {
                lemma_magnitude_value_sign(0);
            }
            return Scalar { bits: 0 };
        }
        // n = sig * 2^(e - 1075), with sig doubled until its bit 52 is set
        let mut sig: u64 = (n as u64) * 0x2000_0000_0000;
        let mut e: u64 = 1030;
        proof {
            lemma2_to64_rest();
            lemma_exp2_negative(45);
            let x = exp2(-45);
            assert((n as int * 0x2000_0000_0000) as real * x == n as real) by (nonlinear_arith)
                requires
                    x * 0x2000_0000_0000real == 1real,
            ;
        }
        while sig < HIDDEN_BIT
            invariant
                0 < sig < 2 * HIDDEN_BIT,
                1023 <= e <= 1030,
                n >= 1,
                sig as real * exp2(e - 1075) == n as real,
            decreases e,
        {
            proof {
                let x = exp2(e - 1075);
                lemma_exp2_step(e - 1076);
                if e == 1023 {
                    // sig * 2^-52 would be below 1
                    lemma2_to64_rest();
                    lemma_exp2_negative(52);
                    lemma_exp2_positive(-52);
                    lemma_product_strict(sig as int, HIDDEN_BIT as int, x);
                    assert(HIDDEN_BIT as real * x == 1real) by (nonlinear_arith)
                        requires
                            x * 0x10_0000_0000_0000real == 1real,
                    ;
                    assert(false);
                }
                assert((2 * sig) as real * exp2(e - 1076) == sig as real * x) by (nonlinear_arith)
                    requires
                        x == 2real * exp2(e - 1076),
                ;
            }
            sig = sig * 2;
            e = e - 1;
        }
        let bits: u64 = e * HIDDEN_BIT + (sig - HIDDEN_BIT);
        assert(exponent_field(bits) == e && fraction_field(bits) == sig - HIDDEN_BIT);
        Scalar { bits }
    }

    /// Whether the sign bit is set.
    pub fn is_sign_negative(self) -> (r: bool)
        ensures
            r == self.is_sign_negative_spec(),
    {
        self.bits >= SIGN_BIT
    }

    /// Whether the number is finite: neither an infinity nor a NaN.
    pub fn is_finite(self) -> (r: bool)
        ensures
            r == self.is_finite_spec(),
    {
        let bits: u64 = self.bits;
        assert(bits & 0x7fff_ffff_ffff_ffff == magnitude(bits)) by (bit_vector);
        (self.bits & 0x7fff_ffff_ffff_ffff) < INFINITY_BITS
    }

    /// Whether the number is a NaN.
    pub fn is_nan(self) -> (r: bool)
        ensures
            r == self.is_nan_spec(),
    {
        let bits: u64 = self.bits;
        assert(bits & 0x7fff_ffff_ffff_ffff == magnitude(bits)) by (bit_vector);
        (self.bits & 0x7fff_ffff_ffff_ffff) > INFINITY_BITS
    }

    /// The number without its sign.
    pub fn abs(self) -> (r: Scalar)
        ensures
            r == self.abs_spec(),
            r.is_nan_spec() == self.is_nan_spec(),
            r.value() >= 0real,
            r.value() == self.value() || r.value() == -self.value(),
    {
        let bits: u64 = self.bits;
        assert(bits & 0x7fff_ffff_ffff_ffff == magnitude(bits)) by (bit_vector);
        proof {
            lemma_magnitude_value_sign(bits);
        }
        Scalar { bits: self.bits & 0x7fff_ffff_ffff_ffff }
    }

    /// The position of the number on the number line.
    fn position(self) -> (k: i64)
        ensures
            k == ordinal(self.bits),
    {
        let bits: u64 = self.bits;
        assert(bits & 0x7fff_ffff_ffff_ffff == magnitude(bits)) by (bit_vector);
        let m: u64 = self.bits & 0x7fff_ffff_ffff_ffff;
        if self.bits >= SIGN_BIT {
            -(m as i64)
        } else {
            m as i64
        }
    }

    /// `self < other`, as binary64 numbers compare.
    pub fn lt(self, other: Scalar) -> (r: bool)
        ensures
            r == self.lt_spec(other),
    {
        proof {
            lemma_ordinal_orders_values(self, other);
        }
        !self.is_nan() && !other.is_nan() && self.position() < other.position()
    }

    /// `self <= other`, as binary64 numbers compare.
    pub fn le(self, other: Scalar) -> (r: bool)
        ensures
            r == self.le_spec(other),
    {
        proof {
            lemma_ordinal_orders_values(self, other);
        }
        !self.is_nan() && !other.is_nan() && self.position() <= other.position()
    }

    /// `self == other`, as binary64 numbers compare.
    pub fn eq(self, other: Scalar) -> (r: bool)
        ensures
            r == self.eq_spec(other),
    {
        proof {
            lemma_ordinal_orders_values(self, other);
        }
        !self.is_nan() && !other.is_nan() && self.position() == other.position()
    }
}

impl Default for Scalar {
    /// Zero, with a positive sign.
    fn default() -> (s: Scalar)
        ensures
            s.bits == 0,
    {
        Scalar { bits: 0 }
    }
}

/// Raising the exponent by one doubles the power.
pub proof fn lemma_exp2_step(k: int)
    ensures
        exp2(k + 1) == 2real * exp2(k),
{
    if k < 0 {
        assert(exp2(k) == exp2(k + 1) / 2real);
    }
}

/// Every power of two is positive.
pub proof fn lemma_exp2_positive(k: int)
    ensures
        exp2(k) > 0real,
    decreases (if k >= 0 { k } else { -k }),
{
    if k > 0 {
        lemma_exp2_positive(k - 1);
    } else if k < 0 {
        lemma_exp2_positive(k + 1);
    }
}

/// Powers of two grow with their exponent.
pub proof fn lemma_exp2_monotone(a: int, b: int)
    requires
        a <= b,
    ensures
        exp2(a) <= exp2(b),
    decreases b - a,
{
    if a < b {
        lemma_exp2_monotone(a, b - 1);
        lemma_exp2_step(b - 1);
        lemma_exp2_positive(b - 1);
    }
}

/// A power of two with a negative exponent is the inverse of the one with
/// the opposite exponent.
proof fn lemma_exp2_negative(k: nat)
    ensures
        exp2(-(k as int)) * (pow2(k) as real) == 1real,
    decreases k,
{
    if k == 0 {
        lemma2_to64();
    } else {
        lemma_exp2_negative((k - 1) as nat);
        lemma_pow2_unfold(k);
        let a = exp2(-(k as int) + 1);
        let b = pow2((k - 1) as nat);
        assert((a / 2real) * ((2 * b) as real) == a * (b as real)) by (nonlinear_arith);
    }
}

proof fn lemma_product_strict(a: int, b: int, x: real)
    by (nonlinear_arith)
    requires
        a < b,
        x > 0real,
    ensures
        a as real * x < b as real * x,
{
}

proof fn lemma_product_weak(a: int, x: real, y: real)
    by (nonlinear_arith)
    requires
        a >= 0,
        x <= y,
    ensures
        a as real * x <= a as real * y,
{
}

/// The absolute value of an encoding is zero for the two zeros and positive
/// for every other encoding.
pub proof fn lemma_magnitude_value_sign(bits: u64)
    ensures
        magnitude(magnitude(bits)) == magnitude(bits),
        magnitude_value(magnitude(bits)) == magnitude_value(bits),
        magnitude(bits) == 0 ==> magnitude_value(bits) == 0real,
        magnitude(bits) != 0 ==> magnitude_value(bits) > 0real,
{
    let x = exp2(scale(bits));
    lemma_exp2_positive(scale(bits));
    if magnitude(bits) != 0 {
        assert(significand(bits) > 0);
        lemma_product_strict(0, significand(bits), x);
    } else {
        assert(significand(bits) == 0);
        assert(0real * x == 0real) by (nonlinear_arith);
    }
}

/// A normal number with a positive sign and a scale that is not positive is
/// a quotient: its significand over a power of two.
pub proof fn lemma_value_is_quotient(bits: u64, numerator: int, denominator: int)
    requires
        bits < SIGN_BIT,
        exponent_field(bits) >= 1,
        scale(bits) <= 0,
        numerator == significand(bits),
        denominator == pow2((-scale(bits)) as nat),
    ensures
        Scalar::from_bits(bits).value() * (denominator as real) == numerator as real,
{
    lemma_exp2_negative((-scale(bits)) as nat);
    let x = exp2(scale(bits));
    let p = denominator as real;
    let sig = numerator as real;
    assert((sig * x) * p == sig) by (nonlinear_arith)
        requires
            x * p == 1real,
    ;
}

/// Among encodings without a sign bit, a larger encoding stands for a larger
/// absolute value.
pub proof fn lemma_magnitude_value_increasing(a: u64, b: u64)
    requires
        a < b,
        b < SIGN_BIT,
    ensures
        magnitude_value(a) < magnitude_value(b),
{
    let xa = exp2(scale(a));
    let xb = exp2(scale(b));
    let hidden = HIDDEN_BIT as int;
    lemma_exp2_positive(scale(a));
    lemma_exp2_positive(scale(b));
    if exponent_field(a) == exponent_field(b) {
        assert(significand(a) < significand(b));
        lemma_product_strict(significand(a), significand(b), xa);
    } else {
        assert(exponent_field(a) < exponent_field(b));
        assert(significand(b) >= hidden);
        assert(hidden as real * xb <= significand(b) as real * xb) by {
            if hidden < significand(b) {
                lemma_product_strict(hidden, significand(b), xb);
            }
        }
        if exponent_field(a) == 0 {
            // below the hidden bit, at a scale that is no larger
            lemma_exp2_monotone(scale(a), scale(b));
            lemma_product_strict(significand(a), hidden, xa);
            lemma_product_weak(hidden, xa, xb);
        } else {
            // below twice the hidden bit, at a scale that is at least one smaller
            lemma_exp2_step(scale(a));
            lemma_exp2_monotone(scale(a) + 1, scale(b));
            lemma_product_strict(significand(a), 2 * hidden, xa);
            assert((2 * hidden) as real * xa == hidden as real * (2real * xa)) by (nonlinear_arith);
            lemma_product_weak(hidden, 2real * xa, xb);
        }
    }
}

/// Encodings lie on the number line as the values that they stand for: one
/// is to the left of another exactly if its value is smaller, and two share
/// a position exactly if their values are equal.
pub proof fn lemma_ordinal_orders_values(a: Scalar, b: Scalar)
    ensures
        ordinal(a.bits) < ordinal(b.bits) <==> a.value() < b.value(),
        ordinal(a.bits) == ordinal(b.bits) <==> a.value() == b.value(),
{
    let ma = magnitude(a.bits);
    let mb = magnitude(b.bits);
    lemma_magnitude_value_sign(a.bits);
    lemma_magnitude_value_sign(b.bits);
    if ma < mb {
        lemma_magnitude_value_increasing(ma, mb);
    } else if mb < ma {
        lemma_magnitude_value_increasing(mb, ma);
    }
}

/// Changing the sign of a number changes the sign of its value and leaves
/// its magnitude as it is.
pub proof fn lemma_neg(a: Scalar)
    ensures
        a.neg_spec().value() == -a.value(),
        a.neg_spec().abs_spec() == a.abs_spec(),
        a.neg_spec().is_nan_spec() == a.is_nan_spec(),
        a.neg_spec().neg_spec() == a,
{
}

/// No two encodings with the same sign stand for the same value: a value
/// and a sign pin the encoding down.
pub proof fn lemma_value_pins_encoding(a: Scalar, b: Scalar)
    requires
        a.value() == b.value(),
        a.is_sign_negative_spec() == b.is_sign_negative_spec(),
    ensures
        a == b,
{
    lemma_ordinal_orders_values(a, b);
}

} // verus!
