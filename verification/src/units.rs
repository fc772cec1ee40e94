//! Lengths in source space.
//!
//! A vector image declares its size in fractions of a pixel. The geometry
//! needs these lengths exactly, so they are held as fixed-point numbers:
//! a `Length` counts units of 2^-32 of a pixel.

use vstd::arithmetic::div_mod::lemma_basic_div;
use vstd::arithmetic::div_mod::lemma_fundamental_div_mod;
use vstd::arithmetic::div_mod::lemma_small_mod;
use vstd::arithmetic::power2::lemma2_to64;
use vstd::arithmetic::power2::lemma2_to64_rest;
use vstd::arithmetic::power2::lemma_pow2_pos;
use vstd::arithmetic::power2::lemma_pow2_strictly_increases;
use vstd::arithmetic::power2::pow2;
use vstd::bits::lemma_u64_shl_is_mul;
use vstd::prelude::*;

verus! {

/// The number of raw units in one pixel.
pub const UNITS_PER_PIXEL: u64 = 0x1_0000_0000;

/// A non-negative length in source space, in units of 2^-32 of a pixel.
#[derive(Clone, Copy, Debug, PartialEq, Eq, Structural)]
pub struct Length {
    pub raw: u64,
}

impl Length {
    /// The length of no extent at all.
    pub fn zero() -> (r: Length)
        ensures
            r.raw == 0,
    {
        Length { raw: 0 }
    }

    /// The length that counts `raw` units.
    pub fn from_raw(raw: u64) -> (r: Length)
        ensures
            r.raw == raw,
    {
        Length { raw }
    }

    /// The length of a whole number of pixels.
    pub fn from_pixels(pixels: u32) -> (r: Length)
        ensures
            r.raw == pixels * UNITS_PER_PIXEL,
    {
        assert(pixels * UNITS_PER_PIXEL <= u64::MAX) by (nonlinear_arith)
            requires
                pixels <= u32::MAX,
                UNITS_PER_PIXEL == 0x1_0000_0000,
        ;
        Length { raw: (pixels as u64) * UNITS_PER_PIXEL }
    }

    /// The raw count of units.
    pub fn raw(&self) -> (r: u64)
        ensures
            r == self.raw,
    {
        self.raw
    }

    /// Reads a length from the bit pattern of a single-precision binary
    /// floating-point number: one sign bit, eight exponent bits, twenty-three
    /// fraction bits.
    ///
    /// The pattern gives a length where the number it stands for is one:
    /// not negative, finite, below 2^32 pixels and a whole multiple of 2^-32
    /// pixel. The length is then that number exactly. Any other pattern
    /// gives nothing; no number is rounded or cut to fit. Every number from
    /// 2^-9 up to 2^32 is a length.
    pub fn from_binary32(bits: u32) -> (r: Option<Length>)
        ensures
            r is Some <==> binary32_measurable(bits),
            r matches Some(length) ==> length.raw == binary32_raw(bits),
    {
        if bits >= 0x8000_0000 {
            return None;
        }
        let field: u32 = bits / 0x80_0000;
        let fraction: u32 = bits % 0x80_0000;
        if field == 255 {
            return None;
        }
        let exponent: u32 = if field == 0 {
            1
        } else {
            field
        };
        let significand: u64 = if field == 0 {
            fraction as u64
        } else {
            fraction as u64 + 0x80_0000
        };
        proof {
            lemma2_to64();
            lemma2_to64_rest();
        }
        if exponent >= 118 {
            let shift: u32 = exponent - 118;
            if shift > 40 {
                None
            } else {
                proof {
                    if shift < 40 {
                        lemma_pow2_strictly_increases(shift as nat, 40);
                    }
                    lemma_pow2_pos(shift as nat);
                    assert(significand * pow2(shift as nat) <= u64::MAX) by (nonlinear_arith)
                        requires
                            significand < 0x100_0000,
                            0 < pow2(shift as nat) <= 0x100_0000_0000,
                    ;
                    lemma_u64_shl_is_mul(significand, shift as u64);
                }
                Some(Length { raw: significand << (shift as u64) })
            }
        } else {
            let shift: u32 = 118 - exponent;
            if shift >= 24 {
                proof {
                    if shift > 24 {
                        lemma_pow2_strictly_increases(24, shift as nat);
                    }
                    lemma_small_mod(significand as nat, pow2(shift as nat));
                    lemma_basic_div(significand as int, pow2(shift as nat) as int);
                }
                if significand == 0 {
                    Some(Length { raw: 0 })
                } else {
                    None
                }
            } else {
                proof {
                    lemma_pow2_strictly_increases(shift as nat, 24);
                    lemma_u64_shl_is_mul(1, shift as u64);
                }
                let unit: u64 = 1u64 << (shift as u64);
                if significand % unit == 0 {
                    Some(Length { raw: significand / unit })
                } else {
                    None
                }
            }
        }
    }

    /// What is left of the length once `near` and `far` pixels are cut from
    /// its two ends: the difference where it is positive, zero otherwise.
    pub open spec fn spec_clipped(self, near: u32, far: u32) -> Length {
        Length { raw: clipped_raw(self.raw as nat, near as nat, far as nat) as u64 }
    }

    /// Cuts `near` pixels from one end of the length and `far` from the other.
    /// A cut that reaches or passes the whole length leaves zero.
    pub fn clipped(&self, near: u32, far: u32) -> (r: Length)
        ensures
            r == self.spec_clipped(near, far),
            r.raw <= self.raw,
    {
        let cut: u64 = near as u64 + far as u64;
        if cut >= UNITS_PER_PIXEL {
            assert(cut * UNITS_PER_PIXEL >= self.raw) by (nonlinear_arith)
                requires
                    cut >= UNITS_PER_PIXEL,
                    UNITS_PER_PIXEL == 0x1_0000_0000,
                    self.raw <= u64::MAX,
            ;
            Length { raw: 0 }
        } else {
            assert(cut * UNITS_PER_PIXEL <= u64::MAX) by (nonlinear_arith)
                requires
                    cut < UNITS_PER_PIXEL,
                    UNITS_PER_PIXEL == 0x1_0000_0000,
            ;
            let cut_raw: u64 = cut * UNITS_PER_PIXEL;
            if self.raw > cut_raw {
                Length { raw: self.raw - cut_raw }
            } else {
                Length { raw: 0 }
            }
        }
    }
}

/// Whether a bit pattern stands for a number that is a length: the sign bit
/// is clear, the exponent field is not all ones, and the number is a whole
/// count of raw units below 2^64.
pub open spec fn binary32_measurable(bits: u32) -> bool {
    &&& bits < 0x8000_0000
    &&& binary32_field(bits) != 255
    &&& if binary32_exponent(bits) >= 118 {
        binary32_exponent(bits) <= 158
    } else {
        binary32_significand(bits) % pow2((118 - binary32_exponent(bits)) as nat) == 0
    }
}

/// The exponent field of a bit pattern whose sign bit is clear.
pub open spec fn binary32_field(bits: u32) -> nat {
    (bits / 0x80_0000) as nat
}

/// The power of two that a bit pattern scales its significand by, as the
/// format biases it: the exponent field, or one where the field is zero.
pub open spec fn binary32_exponent(bits: u32) -> nat {
    if binary32_field(bits) == 0 {
        1
    } else {
        binary32_field(bits)
    }
}

/// The significand of a bit pattern in units of 2^-23: the fraction bits,
/// with the hidden leading one where the exponent field is not zero.
pub open spec fn binary32_significand(bits: u32) -> nat {
    if binary32_field(bits) == 0 {
        (bits % 0x80_0000) as nat
    } else {
        (bits % 0x80_0000 + 0x80_0000) as nat
    }
}

/// The raw length of a measurable bit pattern. The pattern stands for
/// `significand * 2^(exponent - 150)` pixels, which is
/// `significand * 2^(exponent - 118)` raw units.
pub open spec fn binary32_raw(bits: u32) -> nat {
    let e = binary32_exponent(bits);
    let m = binary32_significand(bits);
    if e >= 118 {
        m * pow2((e - 118) as nat)
    } else {
        m / pow2((118 - e) as nat)
    }
}

/// The raw length of a measurable pattern is the number that the pattern
/// stands for, with nothing rounded and nothing cut: it fits the raw
/// count, and where the exponent is below 118 the division that gives it
/// leaves no remainder.
pub proof fn lemma_binary32_read_exactly(bits: u32)
    requires
        binary32_measurable(bits),
    ensures
        binary32_raw(bits) <= u64::MAX,
        binary32_exponent(bits) < 118 ==> binary32_raw(bits) * pow2(
            (118 - binary32_exponent(bits)) as nat,
        ) == binary32_significand(bits),
{
    let e = binary32_exponent(bits);
    let m = binary32_significand(bits);
    lemma2_to64_rest();
    if e >= 118 {
        let shift = (e - 118) as nat;
        if shift < 40 {
            lemma_pow2_strictly_increases(shift, 40);
        }
        lemma_pow2_pos(shift);
        assert(m * pow2(shift) <= u64::MAX) by (nonlinear_arith)
            requires
                m < 0x100_0000,
                0 < pow2(shift) <= 0x100_0000_0000,
        ;
    } else {
        let k = pow2((118 - e) as nat);
        lemma_pow2_pos((118 - e) as nat);
        lemma_fundamental_div_mod(m as int, k as int);
        assert((m / k) * k == m && m / k <= m) by (nonlinear_arith)
            requires
                k > 0,
                m == k * (m / k) + (m % k),
                m % k == 0,
                m >= 0,
        ;
    }
}

/// Every pattern with a clear sign bit and an exponent field from 118 to
/// 158, which is every number from 2^-9 up to 2^32 pixels, is a length.
pub proof fn lemma_binary32_common_range(bits: u32)
    requires
        bits < 0x8000_0000,
        118 <= binary32_field(bits) <= 158,
    ensures
        binary32_measurable(bits),
{
}

/// The raw length that remains of `extent` raw units after `near + far`
/// pixels are removed, never less than zero.
pub open spec fn clipped_raw(extent: nat, near: nat, far: nat) -> nat {
    let cut = (near + far) * (UNITS_PER_PIXEL as nat);
    if extent > cut {
        (extent - cut) as nat
    } else {
        0
    }
}

} // verus!
