//! Double-precision numbers carried by their bit pattern.

use vstd::prelude::*;
use vstd::arithmetic::power2::{
    lemma2_to64, lemma2_to64_rest, lemma_pow2_adds, lemma_pow2_pos,
    lemma_pow2_strictly_increases, lemma_pow2_unfold, pow2,
};
use vstd::bits::{
    lemma_u64_low_bits_mask_is_mod, lemma_u64_pow2_no_overflow, lemma_u64_shl_is_mul,
    lemma_u64_shr_is_div, low_bits_mask,
};

verus! {

/// An IEEE-754 double-precision number, held as its 64-bit pattern: one
/// sign bit, eleven bits of exponent, fifty-two bits of fraction.
///
/// The library carries these numbers from an input record to a row
/// unchanged; the one thing it computes is the double nearest to an
/// integer.
#[derive(Clone, Copy, Debug, PartialEq, Eq, Structural)]
pub struct Double {
    bits: u64,
}

/// The position of the highest set bit of a positive number: the `p` with
/// `2^p <= mag < 2^(p + 1)`.
pub open spec fn top_bit(mag: nat) -> nat
    decreases mag,
{
    if mag <= 1 {
        0
    } else {
        1 + top_bit(mag / 2)
    }
}

/// `mag / unit` rounded to the nearest integer; a tie goes to the even
/// one.
pub open spec fn round_half_even(mag: nat, unit: nat) -> nat {
    let quotient = mag / unit;
    let remainder = mag % unit;
    if 2 * remainder > unit || (2 * remainder == unit && quotient % 2 == 1) {
        quotient + 1
    } else {
        quotient
    }
}

/// The significand of the double nearest to a positive integer, with its
/// leading bit: `mag` scaled to fifty-three bits, exactly where it has no
/// more than that, rounded where it has more.
pub open spec fn significand_of(mag: nat) -> nat {
    let p = top_bit(mag);
    if p <= 52 {
        mag * pow2((52 - p) as nat)
    } else {
        round_half_even(mag, pow2((p - 52) as nat))
    }
}

/// The bit pattern of the double nearest to an integer, ties to the even
/// significand. The exponent field is the position of the highest bit plus
/// the bias of 1023, and the leading bit of the significand is not stored:
/// a significand that rounding has carried to `2^53` moves the exponent up
/// by itself.
pub open spec fn double_of_int(n: int) -> u64 {
    if n == 0 {
        0
    } else {
        let mag = (if n < 0 {
            -n
        } else {
            n
        }) as nat;
        let sign: int = if n < 0 {
            0x8000_0000_0000_0000
        } else {
            0
        };
        (sign + (top_bit(mag) + 1022) * 0x10_0000_0000_0000 + significand_of(mag)) as u64
    }
}

/// Rounding gives the nearest multiple of the unit: the rounded quotient
/// times the unit is no further from `mag` than half a unit, and where it
/// is exactly half a unit away, the rounded quotient is even.
pub proof fn lemma_round_half_even_is_nearest(mag: nat, unit: nat)
    requires
        unit > 0,
    ensures
        2 * (round_half_even(mag, unit) * unit - mag) <= unit,
        2 * (mag - round_half_even(mag, unit) * unit) <= unit,
        2 * (round_half_even(mag, unit) * unit - mag) == unit || 2 * (mag - round_half_even(
            mag,
            unit,
        ) * unit) == unit ==> round_half_even(mag, unit) % 2 == 0,
{
    let quotient = mag / unit;
    let remainder = mag % unit;
    assert(mag == quotient * unit + remainder && 0 <= remainder < unit) by (nonlinear_arith)
        requires
            unit > 0,
            quotient == mag / unit,
            remainder == mag % unit,
    ;
    assert((quotient + 1) * unit == quotient * unit + unit) by (nonlinear_arith);
}

/// The significand of the nearest double has fifty-three bits, or is the
/// `2^53` that rounding carries into the exponent: the pattern is that of
/// a normal number whose exponent is the position of the highest bit.
pub proof fn lemma_significand_is_normal(mag: nat)
    requires
        mag > 0,
    ensures
        pow2(52) <= significand_of(mag) <= pow2(53),
{
    let p = top_bit(mag);
    lemma_top_bit_bounds(mag);
    lemma_pow2_unfold(53);
    if p <= 52 {
        let shift = (52 - p) as nat;
        lemma_pow2_adds(p, shift);
        lemma_pow2_pos(shift);
        assert(p + shift == 52);
        assert(pow2(p) * pow2(shift) <= mag * pow2(shift) < 2 * (pow2(p) * pow2(shift)))
            by (nonlinear_arith)
            requires
                pow2(p) <= mag < 2 * pow2(p),
                pow2(shift) > 0,
        ;
    } else {
        let shift = (p - 52) as nat;
        let unit = pow2(shift);
        lemma_pow2_adds(52, shift);
        lemma_pow2_pos(shift);
        assert(52 + shift == p);
        assert(pow2(52) <= mag / unit < 2 * pow2(52)) by (nonlinear_arith)
            requires
                pow2(52) * unit <= mag < 2 * (pow2(52) * unit),
                unit > 0,
        ;
    }
}

/// The highest set bit bounds the number from both sides.
pub proof fn lemma_top_bit_bounds(mag: nat)
    requires
        mag > 0,
    ensures
        pow2(top_bit(mag)) <= mag < 2 * pow2(top_bit(mag)),
    decreases mag,
{
    if mag <= 1 {
        lemma2_to64();
    } else {
        lemma_top_bit_bounds(mag / 2);
        lemma_pow2_unfold(top_bit(mag));
    }
}

/// The position of the highest set bit of `mag`.
fn highest_bit(mag: u64) -> (p: u32)
    requires
        mag > 0,
    ensures
        p == top_bit(mag as nat),
        p <= 63,
{
    let mut p: u32 = 0;
    let mut rest: u64 = mag;
    proof {
        lemma2_to64();
    }
    while rest > 1
        invariant
            rest >= 1,
            p <= 63,
            top_bit(mag as nat) == p + top_bit(rest as nat),
            rest * pow2(p as nat) <= mag,
        decreases rest,
    {
        proof {
            let half = rest / 2;
            let scale = pow2(p as nat);
            lemma_pow2_unfold((p + 1) as nat);
            assert(half * (2 * scale) <= rest * scale) by (nonlinear_arith)
                requires
                    2 * half <= rest,
                    scale >= 0,
            ;
            if p + 1 > 63 {
                lemma2_to64();
                if p + 1 > 64 {
                    lemma_pow2_strictly_increases(64, (p + 1) as nat);
                }
                assert(half * pow2((p + 1) as nat) >= pow2((p + 1) as nat)) by (nonlinear_arith)
                    requires
                        half >= 1,
                        pow2((p + 1) as nat) >= 0,
                ;
            }
        }
        rest = rest / 2;
        p = p + 1;
    }
    p
}

/// `mag` shifted right by `shift` bits and rounded to nearest, ties to
/// even.
fn round_shifted(mag: u64, shift: u64) -> (rounded: u64)
    requires
        1 <= shift <= 63,
    ensures
        rounded == round_half_even(mag as nat, pow2(shift as nat)),
{
    let quotient = mag >> shift;
    let unit: u64 = 1u64 << shift;
    let half: u64 = 1u64 << (shift - 1);
    proof {
        lemma_u64_pow2_no_overflow(shift as nat);
        lemma_u64_pow2_no_overflow((shift - 1) as nat);
        lemma_u64_shl_is_mul(1, shift);
        lemma_u64_shl_is_mul(1, (shift - 1) as u64);
        lemma_pow2_unfold(shift as nat);
        lemma_u64_shr_is_div(mag, shift);
        lemma_u64_low_bits_mask_is_mod(mag, shift as nat);
        assert(unit == pow2(shift as nat));
        assert(half == pow2((shift - 1) as nat));
        assert(unit == 2 * half);
        assert((unit - 1) as u64 == low_bits_mask(shift as nat) as u64);
    }
    let remainder = mag & (unit - 1);
    assert(quotient & 1 == quotient % 2) by (bit_vector);
    assert(quotient <= mag / 2) by (bit_vector)
        requires
            quotient == mag >> shift,
            1 <= shift <= 63,
    ;
    if remainder > half || (remainder == half && quotient & 1 == 1) {
        quotient + 1
    } else {
        quotient
    }
}

impl Double {
    /// The bit pattern of this number.
    pub closed spec fn spec_bits(self) -> u64 {
        self.bits
    }

    /// The number with the given bit pattern.
    pub fn from_bits(bits: u64) -> (r: Double)
        ensures
            r.spec_bits() == bits,
    {
        Double { bits }
    }

    /// The bit pattern of this number.
    #[verifier::when_used_as_spec(spec_bits)]
    pub fn bits(self) -> (b: u64)
        ensures
            b == self.spec_bits(),
    {
        self.bits
    }

    /// Positive zero, whose bit pattern is all zeroes.
    pub fn zero() -> (r: Double)
        ensures
            r.spec_bits() == 0,
    {
        Double { bits: 0 }
    }

    /// The double nearest to `n`. Integers of up to fifty-three bits are
    /// exact; longer ones are rounded, a tie to the even significand.
    pub fn from_i64(n: i64) -> (r: Double)
        ensures
            r.spec_bits() == double_of_int(n as int),
    {
        if n == 0 {
            return Double { bits: 0 };
        }
        let negative = n < 0;
        let mag: u64 = if negative {
            (-(n + 1)) as u64 + 1
        } else {
            n as u64
        };
        let p = highest_bit(mag);
        proof {
            lemma_top_bit_bounds(mag as nat);
            lemma2_to64();
            lemma2_to64_rest();
        }
        let significand: u64 = if p <= 52 {
            let shift = (52 - p) as u64;
            proof {
                lemma_pow2_adds(p as nat, shift as nat);
                lemma_pow2_pos(shift as nat);
                assert(mag * pow2(shift as nat) < 2 * pow2(52)) by (nonlinear_arith)
                    requires
                        mag < 2 * pow2(p as nat),
                        pow2(52) == pow2(p as nat) * pow2(shift as nat),
                        pow2(shift as nat) > 0,
                ;
                lemma_u64_shl_is_mul(mag, shift);
            }
            mag << shift
        } else {
            let shift = (p - 52) as u64;
            proof {
                lemma_pow2_adds(52, shift as nat);
                lemma_pow2_pos(shift as nat);
                assert(mag as nat / pow2(shift as nat) < 2 * pow2(52)) by (nonlinear_arith)
                    requires
                        mag < 2 * pow2(p as nat),
                        pow2(p as nat) == pow2(52) * pow2(shift as nat),
                        pow2(shift as nat) > 0,
                ;
            }
            round_shifted(mag, shift)
        };
        let sign: u64 = if negative {
            0x8000_0000_0000_0000
        } else {
            0
        };
        assert(significand == significand_of(mag as nat));
        assert(significand <= 0x20_0000_0000_0000);
        Double { bits: sign + (p as u64 + 1022) * 0x10_0000_0000_0000 + significand }
    }
}

} // verus!
