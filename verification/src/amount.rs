//! Amounts of money as IEEE 754 binary64 numbers, held by their bit pattern.

use vstd::arithmetic::mul::{
    lemma_mul_inequality, lemma_mul_is_associative, lemma_mul_nonnegative,
    lemma_mul_strict_inequality,
};
use vstd::arithmetic::power2::{
    lemma2_to64, lemma2_to64_rest, lemma_pow2_adds, lemma_pow2_pos, lemma_pow2_strictly_increases,
    pow2,
};
use vstd::prelude::*;

verus! {

/// The lowest amount that is accepted, in whole units.
pub const MIN_AMOUNT: u64 = 1;

/// The highest amount that is accepted, in whole units.
pub const MAX_AMOUNT: u64 = 1_000_000;

/// Bit pattern of the binary64 number `1.0`.
pub const MIN_AMOUNT_BITS: u64 = 0x3FF0_0000_0000_0000;

/// Bit pattern of the binary64 number `1000000.0`.
pub const MAX_AMOUNT_BITS: u64 = 0x412E_8480_0000_0000;

/// The number of binary places behind the point that every finite binary64
/// number fits in: each is a whole multiple of `2^-1074`.
pub open spec fn places() -> nat {
    1074
}

/// What one whole unit is worth on the scale of [`Amount::scaled`].
pub open spec fn unit() -> int {
    pow2(places()) as int
}

/// An amount of money: a binary64 number, held by its 64 bits.
///
/// The bits are, from the top, one sign bit, eleven bits of exponent and
/// fifty-two bits of fraction.
#[derive(Clone, Copy, Debug, PartialEq, Eq, Structural)]
pub struct Amount {
    pub bits: u64,
}

impl Amount {
    /// The sign bit: 0 or 1.
    pub open spec fn sign(self) -> int {
        self.bits as int / 0x8000_0000_0000_0000
    }

    /// The biased exponent: 0 to 2047.
    pub open spec fn exponent(self) -> int {
        (self.bits as int / 0x10_0000_0000_0000) % 0x800
    }

    /// The fraction field: the low 52 bits.
    pub open spec fn fraction(self) -> int {
        self.bits as int % 0x10_0000_0000_0000
    }

    /// Neither an infinity nor a NaN.
    pub open spec fn is_finite(self) -> bool {
        self.exponent() != 0x7ff
    }

    /// The significand as a whole number: the fraction, with the hidden bit
    /// in front of it unless the number is subnormal.
    pub open spec fn significand(self) -> int {
        if self.exponent() == 0 {
            self.fraction()
        } else {
            0x10_0000_0000_0000 + self.fraction()
        }
    }

    /// The absolute value of a finite number, times `2^1074`.
    pub open spec fn magnitude(self) -> int {
        let shift = if self.exponent() == 0 {
            0
        } else {
            self.exponent() - 1
        };
        self.significand() * pow2(shift as nat)
    }

    /// The value of a finite number, times `2^1074`: a whole number.
    pub open spec fn scaled(self) -> int {
        if self.sign() == 0 {
            self.magnitude()
        } else {
            -self.magnitude()
        }
    }

    /// The number is finite and lies between [`MIN_AMOUNT`] and
    /// [`MAX_AMOUNT`], both included.
    pub open spec fn in_range(self) -> bool {
        &&& self.is_finite()
        &&& MIN_AMOUNT * unit() <= self.scaled()
        &&& self.scaled() <= MAX_AMOUNT * unit()
    }

    /// The amount with the given bit pattern.
    pub fn from_bits(bits: u64) -> (amount: Amount)
        ensures
            amount.bits == bits,
    {
        Amount { bits }
    }

    /// The bit pattern of this amount.
    pub fn to_bits(&self) -> (bits: u64)
        ensures
            bits == self.bits,
    {
        self.bits
    }

    /// Tells whether the amount lies within the accepted range.
    pub fn is_in_range(&self) -> (ok: bool)
        ensures
            ok == self.in_range(),
    {
        proof {
            lemma_range_by_bits(*self);
        }
        MIN_AMOUNT_BITS <= self.bits && self.bits <= MAX_AMOUNT_BITS
    }
}

/// The fields of a bit pattern put together give the pattern back.
pub proof fn lemma_fields(amount: Amount)
    ensures
        0 <= amount.sign() <= 1,
        0 <= amount.exponent() < 0x800,
        0 <= amount.fraction() < 0x10_0000_0000_0000,
        amount.bits == amount.sign() * 0x8000_0000_0000_0000 + amount.exponent()
            * 0x10_0000_0000_0000 + amount.fraction(),
{
}

/// A magnitude is never negative, and for a number that is not subnormal it
/// lies between two neighbouring powers of two.
proof fn lemma_magnitude_bounds(amount: Amount)
    ensures
        0 <= amount.magnitude(),
        amount.exponent() == 0 ==> amount.magnitude() < pow2(52),
        amount.exponent() > 0 ==> pow2((51 + amount.exponent()) as nat) <= amount.magnitude()
            < pow2((52 + amount.exponent()) as nat),
{
    lemma_fields(amount);
    lemma2_to64();
    lemma2_to64_rest();
    let e = amount.exponent();
    let m = amount.significand();
    if e == 0 {
        assert(amount.magnitude() == m * 1);
    } else {
        let p = pow2((e - 1) as nat) as int;
        lemma_pow2_pos((e - 1) as nat);
        lemma_pow2_adds(52, (e - 1) as nat);
        lemma_pow2_adds(53, (e - 1) as nat);
        lemma_mul_inequality(pow2(52) as int, m, p);
        lemma_mul_strict_inequality(m, pow2(53) as int, p);
        lemma_mul_nonnegative(m, p);
    }
}

/// Powers of two grow with their exponent.
proof fn lemma_pow2_grows(low: nat, high: nat)
    requires
        low <= high,
    ensures
        pow2(low) <= pow2(high),
{
    if low < high {
        lemma_pow2_strictly_increases(low, high);
    }
}

/// An amount lies within the accepted range exactly when its bit pattern lies
/// between those of the two limits.
pub proof fn lemma_range_by_bits(amount: Amount)
    ensures
        amount.in_range() <==> MIN_AMOUNT_BITS <= amount.bits <= MAX_AMOUNT_BITS,
{
    lemma_fields(amount);
    lemma_magnitude_bounds(amount);
    lemma2_to64();
    lemma2_to64_rest();
    lemma_pow2_pos(1074);
    let e = amount.exponent();
    let m = amount.significand();
    let one = unit();
    if amount.sign() != 0 {
        assert(amount.scaled() <= 0);
    } else if e == 0 {
        lemma_pow2_grows(52, 1074);
    } else if e == 0x7ff {
    } else if e < 1023 {
        lemma_pow2_grows((52 + e) as nat, 1074);
    } else {
        lemma_pow2_grows(1074, (51 + e) as nat);
        if e < 1042 {
            lemma_pow2_grows((52 + e) as nat, 1093);
            lemma_pow2_adds(19, 1074);
            lemma_mul_inequality(pow2(19) as int, MAX_AMOUNT as int, one);
        } else if e == 1042 {
            let p = pow2(1041) as int;
            lemma_pow2_pos(1041);
            lemma_pow2_adds(33, 1041);
            lemma_mul_is_associative(MAX_AMOUNT as int, pow2(33) as int, p);
            let top = MAX_AMOUNT * pow2(33);
            assert(MAX_AMOUNT * one == top * p);
            assert(amount.scaled() == m * p);
            if m <= top {
                lemma_mul_inequality(m, top, p);
            } else {
                lemma_mul_strict_inequality(top, m, p);
            }
        } else {
            lemma_pow2_grows(1094, (51 + e) as nat);
            lemma_pow2_adds(20, 1074);
            lemma_mul_strict_inequality(MAX_AMOUNT as int, pow2(20) as int, one);
        }
    }
}

/// The two limits are what their names say: the bit patterns
/// [`MIN_AMOUNT_BITS`] and [`MAX_AMOUNT_BITS`] are finite numbers worth
/// exactly [`MIN_AMOUNT`] and [`MAX_AMOUNT`] whole units.
pub proof fn lemma_limits()
    ensures
        (Amount { bits: MIN_AMOUNT_BITS }).is_finite(),
        (Amount { bits: MIN_AMOUNT_BITS }).scaled() == MIN_AMOUNT * unit(),
        (Amount { bits: MAX_AMOUNT_BITS }).is_finite(),
        (Amount { bits: MAX_AMOUNT_BITS }).scaled() == MAX_AMOUNT * unit(),
{
    lemma2_to64();
    lemma2_to64_rest();
    let low = Amount { bits: MIN_AMOUNT_BITS };
    assert(low.exponent() == 1023 && low.fraction() == 0 && low.sign() == 0);
    lemma_pow2_adds(52, 1022);
    let high = Amount { bits: MAX_AMOUNT_BITS };
    assert(high.exponent() == 1042 && high.fraction() == 0xE_8480_0000_0000 && high.sign() == 0);
    assert(high.significand() == MAX_AMOUNT * pow2(33));
    lemma_pow2_adds(33, 1041);
    lemma_mul_is_associative(MAX_AMOUNT as int, pow2(33) as int, pow2(1041) as int);
}

} // verus!
