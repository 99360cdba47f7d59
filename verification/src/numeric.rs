//! A fixed-point number with 80 integer bits and 48 fractional bits.
//!
//! A value is represented by its raw bits, a signed 128-bit integer
//! holding the value scaled by `2^48`. Addition and subtraction are
//! exact bit arithmetic; multiplication and division delegate to the
//! fixed-point arithmetic library and are stated exactly over the bits.

use vstd::prelude::*;

verus! {

/// The scale factor: `2^48`, the weight of one integer unit.
pub const FRAC_UNIT: u128 = 0x1_0000_0000_0000;

/// A fixed-point number: `bits` holds the value scaled by `2^48`.
#[derive(Clone, Copy, Debug, PartialEq, Eq, Structural, PartialOrd, Ord)]
pub struct Numeric {
    pub bits: i128,
}

/// Division rounding toward zero, the quotient convention of the
/// fixed-point library.
pub open spec fn trunc_div(x: int, y: int) -> int {
    if x >= 0 && y > 0 {
        x / y
    } else if x < 0 && y > 0 {
        -((-x) / y)
    } else if x >= 0 && y < 0 {
        -(x / (-y))
    } else {
        (-x) / (-y)
    }
}

/// Relies on fixed::types::I80F48::checked_mul: the product's bits are
/// the bit product shifted down 48 bits, rounding toward minus
/// infinity; None exactly when that value leaves the 128-bit range.
#[verifier::external_body]
fn i80f48_mul_bits(a: i128, b: i128) -> (r: Option<i128>)
    ensures
        r is Some <==> i128::MIN <= (a * b) / (FRAC_UNIT as int) <= i128::MAX,
        r matches Some(v) ==> v == (a * b) / (FRAC_UNIT as int),
{
    fixed::types::I80F48::from_bits(a)
        .checked_mul(fixed::types::I80F48::from_bits(b))
        .map(|x| x.to_bits())
}

/// Relies on fixed::types::I80F48::checked_div: the quotient's bits are
/// the dividend's bits scaled up 48 bits and divided by the divisor's
/// bits, rounding toward zero; None exactly for a zero divisor or when
/// the quotient leaves the 128-bit range.
#[verifier::external_body]
fn i80f48_div_bits(a: i128, b: i128) -> (r: Option<i128>)
    ensures
        r is Some <==> (b != 0 && i128::MIN <= trunc_div(a * (FRAC_UNIT as int), b as int) <= i128::MAX),
        r matches Some(v) ==> v == trunc_div(a * (FRAC_UNIT as int), b as int),
{
    fixed::types::I80F48::from_bits(a)
        .checked_div(fixed::types::I80F48::from_bits(b))
        .map(|x| x.to_bits())
}

impl Numeric {
    /// The zero value.
    pub fn zero() -> (r: Numeric)
        ensures
            r.bits == 0,
    {
        Numeric { bits: 0 }
    }

    /// Wraps raw bits (the value scaled by `2^48`).
    pub fn from_bits(bits: i128) -> (r: Numeric)
        ensures
            r.bits == bits,
    {
        Numeric { bits }
    }

    /// Returns the raw bits.
    pub fn to_bits(&self) -> (r: i128)
        ensures
            r == self.bits,
    {
        self.bits
    }

    /// The value representing the integer `value`.
    pub fn from_u64(value: u64) -> (r: Numeric)
        ensures
            r.bits == value * (FRAC_UNIT as int),
    {
        let v = value as i128;
        proof {
            assert(0 <= v * (FRAC_UNIT as i128) <= i128::MAX) by (nonlinear_arith)
                requires
                    0 <= v <= 0xffff_ffff_ffff_ffffi128,
            ;
        }
        Numeric { bits: v * (FRAC_UNIT as i128) }
    }

    /// The integer part of a nonnegative value that fits in 64 bits.
    pub fn to_u64(&self) -> (r: u64)
        requires
            0 <= self.bits,
            self.bits as int / (FRAC_UNIT as int) <= u64::MAX,
        ensures
            r == self.bits as int / (FRAC_UNIT as int),
    {
        ((self.bits as u128) / FRAC_UNIT) as u64
    }

    /// The value of the fraction `numerator / denominator`, rounded
    /// toward zero (rounding toward zero and toward minus infinity
    /// agree here, both operands being nonnegative).
    pub fn from_fraction(numerator: u64, denominator: u64) -> (r: Numeric)
        requires
            denominator != 0,
        ensures
            r.bits == (numerator * (FRAC_UNIT as int)) / (denominator as int),
    {
        let wide = numerator as u128;
        proof {
            assert(wide * FRAC_UNIT < 0x8000_0000_0000_0000_0000_0000_0000_0000)
                by (nonlinear_arith)
                requires
                    wide <= 0xffff_ffff_ffff_ffffu128,
            ;
        }
        let scaled = wide * FRAC_UNIT;
        let q = scaled / (denominator as u128);
        proof {
            assert(q <= scaled) by (nonlinear_arith)
                requires
                    q == scaled as int / (denominator as int),
                    denominator >= 1,
            ;
        }
        Numeric { bits: q as i128 }
    }

    /// Rounds toward minus infinity to the nearest integer value: the
    /// result's bits are the greatest multiple of `2^48` not above this
    /// value's bits.
    pub fn floor(&self) -> (r: Numeric)
        ensures
            r.bits <= self.bits < r.bits + (FRAC_UNIT as int),
            r.bits as int % (FRAC_UNIT as int) == 0,
    {
        if self.bits >= 0 {
            let m = self.bits as u128;
            let q = m / FRAC_UNIT;
            proof {
                assert(q * FRAC_UNIT <= m && m < q * FRAC_UNIT + FRAC_UNIT && (q
                    * FRAC_UNIT) % (FRAC_UNIT as int) == 0) by (nonlinear_arith)
                    requires
                        q == m as int / (FRAC_UNIT as int),
                ;
            }
            let fb = q * FRAC_UNIT;
            proof {
                assert((fb as int) % (FRAC_UNIT as int) == 0) by (nonlinear_arith)
                    requires
                        fb as int % (FRAC_UNIT as int) == 0,
                        fb <= 0x7fff_ffff_ffff_ffff_ffff_ffff_ffff_ffffu128,
                ;
            }
            Numeric { bits: fb as i128 }
        } else if self.bits == i128::MIN {
            // The minimum is itself a multiple of the scale factor:
            // -(2^127) == -(2^79) * 2^48.
            proof {
                assert((i128::MIN as int) == (-604462909807314587353088int) * (
                FRAC_UNIT as int)) by (nonlinear_arith);
                assert((i128::MIN as int) % (FRAC_UNIT as int) == 0) by (nonlinear_arith)
                    requires
                        (i128::MIN as int) == (-604462909807314587353088int) * (
                        FRAC_UNIT as int),
                ;
            }
            Numeric { bits: self.bits }
        } else {
            let m = (-self.bits) as u128;
            proof {
                assert(1 <= m <= 0x7fff_ffff_ffff_ffff_ffff_ffff_ffff_ffffu128);
            }
            let q = (m + FRAC_UNIT - 1) / FRAC_UNIT;
            proof {
                assert(q <= 0x8000_0000_0000_0000_0000u128 && q * FRAC_UNIT
                    <= 0x8000_0000_0000_0000_0000_0000_0000_0000u128) by (nonlinear_arith)
                    requires
                        q == (m + FRAC_UNIT - 1) / (FRAC_UNIT as int),
                        1 <= m <= 0x7fff_ffff_ffff_ffff_ffff_ffff_ffff_ffffu128,
                ;
            }
            let fb = q * FRAC_UNIT;
            proof {
                assert(m <= fb && fb < m + FRAC_UNIT && fb as int % (FRAC_UNIT as int) == 0)
                    by (nonlinear_arith)
                    requires
                        q == (m + FRAC_UNIT - 1) / (FRAC_UNIT as int),
                        fb == q * FRAC_UNIT,
                        m >= 1,
                ;
            }
            if fb == 0x8000_0000_0000_0000_0000_0000_0000_0000u128 {
                proof {
                    assert((i128::MIN as int) == (-604462909807314587353088int) * (
                    FRAC_UNIT as int)) by (nonlinear_arith);
                    assert((i128::MIN as int) % (FRAC_UNIT as int) == 0)
                        by (nonlinear_arith)
                        requires
                            (i128::MIN as int) == (-604462909807314587353088int) * (
                            FRAC_UNIT as int),
                    ;
                }
                Numeric { bits: i128::MIN }
            } else {
                let bits = -(fb as i128);
                proof {
                    assert((-(fb as int)) % (FRAC_UNIT as int) == 0) by (nonlinear_arith)
                        requires
                            fb as int % (FRAC_UNIT as int) == 0,
                            fb <= 0x7fff_ffff_ffff_ffff_ffff_ffff_ffff_ffffu128,
                    ;
                }
                Numeric { bits }
            }
        }
    }

    /// Exact addition of two values.
    pub fn add(self, other: Numeric) -> (r: Numeric)
        requires
            i128::MIN <= self.bits + other.bits <= i128::MAX,
        ensures
            r.bits == self.bits + other.bits,
    {
        Numeric { bits: self.bits + other.bits }
    }

    /// Exact subtraction of two values.
    pub fn sub(self, other: Numeric) -> (r: Numeric)
        requires
            i128::MIN <= self.bits - other.bits <= i128::MAX,
        ensures
            r.bits == self.bits - other.bits,
    {
        Numeric { bits: self.bits - other.bits }
    }

    /// Multiplication, rounding toward minus infinity.
    pub fn mul(self, other: Numeric) -> (r: Numeric)
        requires
            i128::MIN <= (self.bits * other.bits) / (FRAC_UNIT as int) <= i128::MAX,
        ensures
            r.bits == (self.bits * other.bits) / (FRAC_UNIT as int),
    {
        match i80f48_mul_bits(self.bits, other.bits) {
            Some(v) => Numeric { bits: v },
            None => {
                proof {
                    assert(false);
                }
                Numeric { bits: 0 }
            },
        }
    }

    /// Division, rounding toward zero.
    pub fn div(self, other: Numeric) -> (r: Numeric)
        requires
            other.bits != 0,
            i128::MIN <= trunc_div(
                self.bits * (FRAC_UNIT as int),
                other.bits as int,
            ) <= i128::MAX,
        ensures
            r.bits == trunc_div(self.bits * (FRAC_UNIT as int), other.bits as int),
    {
        match i80f48_div_bits(self.bits, other.bits) {
            Some(v) => Numeric { bits: v },
            None => {
                proof {
                    assert(false);
                }
                Numeric { bits: 0 }
            },
        }
    }
}

} // verus!
