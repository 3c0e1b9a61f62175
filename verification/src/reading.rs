//! Measurements that carry a fraction.
//!
//! A provider writes such a measurement as a binary64 number. A [`Measure`]
//! keeps the 64 bits of that number, whatever they are. A [`Reading`] is a
//! measurement that can be shown: it works on the bits with whole-number
//! arithmetic only, one sign bit, eleven bits of exponent, fifty-two bits of
//! fraction. Its value is `significand / 2^scale`, negated where the sign bit
//! is set.

use vstd::prelude::*;
use vstd::arithmetic::power2::{
    lemma2_to64, lemma2_to64_rest, lemma_pow2_pos, lemma_pow2_strictly_increases, lemma_pow2_unfold,
    pow2,
};
use crate::text::{decimal, push_decimal};

verus! {

/// Two to the power 52: the first bit above the fraction.
pub const HIDDEN_BIT: u64 = 4_503_599_627_370_496;

/// Two to the power 63: the sign bit.
pub const SIGN_BIT: u64 = 9_223_372_036_854_775_808;

/// The exponent field of a number whose last binary place is the unit.
pub const UNIT_EXPONENT: u64 = 1075;

/// The sign of a bit pattern: whether its highest bit is set.
pub open spec fn sign_of(bits: u64) -> bool {
    bits >= SIGN_BIT
}

/// The exponent field of a bit pattern.
pub open spec fn exponent_of(bits: u64) -> nat {
    ((bits / HIDDEN_BIT) % 2048) as nat
}

/// The fraction field of a bit pattern.
pub open spec fn fraction_of(bits: u64) -> nat {
    (bits % HIDDEN_BIT) as nat
}

/// Whether a bit pattern stands for a number, neither infinite nor undefined,
/// below two to the power 53 in magnitude: the range in which every whole
/// number has a pattern of its own.
pub open spec fn is_reading(bits: u64) -> bool {
    exponent_of(bits) <= UNIT_EXPONENT
}

/// A measurement as a provider wrote it: the bits of a binary64 number, any
/// at all.
#[derive(Clone, Copy, Debug, PartialEq, Eq, Structural)]
pub struct Measure {
    pub bits: u64,
}

impl Measure {
    /// The measurement as one that can be shown, if its bits stand for a
    /// number in the range of a [`Reading`].
    pub fn reading(&self) -> (r: Option<Reading>)
        ensures
            r is Some <==> is_reading(self.bits),
            r matches Some(reading) ==> reading.bits() == self.bits,
    {
        Reading::from_bits(self.bits)
    }
}

/// A measurement that can be shown, held as the bits of a binary64 number.
#[derive(Clone, Copy, Debug, PartialEq, Eq, Structural)]
pub struct Reading {
    bits: u64,
}

impl Reading {
    /// The bit pattern of the reading.
    pub closed spec fn bits(self) -> u64 {
        self.bits
    }

    #[verifier::type_invariant]
    spec fn within_range(self) -> bool {
        is_reading(self.bits)
    }

    /// Whether the sign bit of the reading is set. It can be set on zero.
    pub open spec fn negative(self) -> bool {
        sign_of(self.bits())
    }

    /// The whole number that the reading counts its unit in: the fraction,
    /// and the hidden bit above it where the exponent is not zero.
    pub open spec fn significand(self) -> nat {
        if exponent_of(self.bits()) == 0 {
            fraction_of(self.bits())
        } else {
            (fraction_of(self.bits()) + HIDDEN_BIT) as nat
        }
    }

    /// The number of binary places behind the point: the magnitude of the
    /// reading is `significand / 2^scale`.
    pub open spec fn scale(self) -> nat {
        if exponent_of(self.bits()) == 0 {
            1074
        } else {
            (UNIT_EXPONENT - exponent_of(self.bits())) as nat
        }
    }

    /// The magnitude of the reading to the nearest whole number, a half going
    /// away from zero.
    pub open spec fn rounded(self) -> nat {
        let unit = pow2(self.scale());
        ((2 * self.significand() + unit) / (2 * unit)) as nat
    }

    /// The reading to the nearest whole number, a half going away from zero.
    /// A reading that rounds to zero gives zero, whatever its sign.
    pub open spec fn nearest(self) -> int {
        if self.negative() {
            -(self.rounded() as int)
        } else {
            self.rounded() as int
        }
    }

    /// The rounded reading as text: the numeral of the nearest whole number,
    /// with a minus sign before it where that number is below zero.
    pub open spec fn rounded_text(self) -> Seq<char> {
        if self.nearest() < 0 {
            seq!['-'] + decimal(self.rounded())
        } else {
            decimal(self.rounded())
        }
    }

    /// The reading with the given bit pattern, if the pattern is one.
    pub fn from_bits(bits: u64) -> (r: Option<Reading>)
        ensures
            r is Some <==> is_reading(bits),
            r matches Some(reading) ==> reading.bits() == bits,
    {
        if (bits / HIDDEN_BIT) % 2048 <= UNIT_EXPONENT {
            Some(Reading { bits })
        } else {
            None
        }
    }

    /// The bit pattern of the reading.
    pub fn to_bits(&self) -> (r: u64)
        ensures
            r == self.bits(),
            is_reading(r),
    {
        proof {
            use_type_invariant(self);
        }
        self.bits
    }

    /// Whether the sign bit of the reading is set.
    pub fn is_negative(&self) -> (r: bool)
        ensures
            r == self.negative(),
    {
        self.bits >= SIGN_BIT
    }

    /// The magnitude of the reading, rounded to the nearest whole number with
    /// a half going away from zero.
    pub fn round(&self) -> (r: u64)
        ensures
            r == self.rounded(),
            r <= 2 * HIDDEN_BIT,
    {
        proof {
            use_type_invariant(self);
        }
        let exponent: u64 = (self.bits / HIDDEN_BIT) % 2048;
        let fraction: u64 = self.bits % HIDDEN_BIT;
        let significand: u64 = if exponent == 0 {
            fraction
        } else {
            fraction + HIDDEN_BIT
        };
        let scale: u64 = if exponent == 0 {
            1074
        } else {
            UNIT_EXPONENT - exponent
        };
        if scale > 54 {
            proof {
                lemma2_to64_rest();
                lemma_pow2_strictly_increases(54, scale as nat);
                lemma_small_quotient(2 * significand as int, pow2(scale as nat) as int);
            }
            return 0;
        }
        let unit: u64 = power_of_two(scale);
        proof {
            lemma2_to64_rest();
            lemma_pow2_pos(scale as nat);
            if scale < 54 {
                lemma_pow2_strictly_increases(scale as nat, 54);
            }
            lemma_quotient_bound(2 * significand as int, unit as int);
        }
        (2 * significand + unit) / (2 * unit)
    }

    /// The rounded reading as text.
    pub fn rounded_string(&self) -> (r: String)
        ensures
            r@ == self.rounded_text(),
    {
        let magnitude = self.round();
        let mut out = String::new();
        if self.is_negative() && magnitude != 0 {
            out.push('-');
        }
        push_decimal(&mut out, magnitude);
        assert(out@ =~= self.rounded_text());
        out
    }
}

/// Two to the power `k`.
fn power_of_two(k: u64) -> (r: u64)
    requires
        k <= 54,
    ensures
        r == pow2(k as nat),
{
    let mut unit: u64 = 1;
    let mut i: u64 = 0;
    proof {
        lemma2_to64();
        lemma2_to64_rest();
    }
    while i < k
        invariant
            i <= k <= 54,
            unit == pow2(i as nat),
            unit <= pow2(54),
            pow2(54) == 0x40000000000000,
        decreases k - i,
    {
        proof {
            lemma_pow2_unfold((i + 1) as nat);
            if i + 1 < 54 {
                lemma_pow2_strictly_increases((i + 1) as nat, 54);
            }
        }
        unit = unit * 2;
        i += 1;
    }
    unit
}

/// Zero is written without a sign: a reading that rounds to zero is shown as
/// `0`, also where it is below zero.
pub proof fn lemma_zero_has_no_sign(reading: Reading)
    requires
        reading.rounded() == 0,
    ensures
        reading.nearest() == 0,
        reading.rounded_text() == seq!['0'],
{
    assert(decimal(0) =~= seq!['0']);
}

/// Rounding gives the nearest whole number, and of two that are equally near
/// the one further from zero: the rounded magnitude lies less than half a
/// unit below the magnitude of the reading and no more than half a unit above
/// it. Only one whole number does.
pub proof fn lemma_rounded_is_nearest(reading: Reading)
    ensures
        -pow2(reading.scale()) < 2 * (reading.rounded() * pow2(reading.scale())
            - reading.significand()) <= pow2(reading.scale()),
{
    let unit = pow2(reading.scale()) as int;
    let twice = 2 * reading.significand() as int;
    let rounded = (twice + unit) / (2 * unit);
    lemma_pow2_pos(reading.scale());
    assert(0 <= rounded && -unit < 2 * (rounded * unit) - twice <= unit) by (nonlinear_arith)
        requires
            0 < unit,
            0 <= twice,
            rounded == (twice + unit) / (2 * unit),
    ;
}

/// A half added to less than a half is less than one.
proof fn lemma_small_quotient(twice: int, unit: int)
    requires
        0 <= twice < unit,
    ensures
        (twice + unit) / (2 * unit) == 0,
{
    assert((twice + unit) / (2 * unit) == 0) by (nonlinear_arith)
        requires
            0 <= twice < unit,
    ;
}

/// Rounding takes a magnitude no further than the next whole number.
proof fn lemma_quotient_bound(twice: int, unit: int)
    requires
        0 <= twice,
        1 <= unit,
    ensures
        0 <= (twice + unit) / (2 * unit) <= twice / 2 + 1,
{
    assert(0 <= (twice + unit) / (2 * unit) <= twice / 2 + 1) by (nonlinear_arith)
        requires
            0 <= twice,
            1 <= unit,
    ;
}

} // verus!
