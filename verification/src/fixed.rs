//! The integer core of the 16.16 fixed-point conversion.
//!
//! A finite double is a sign together with a magnitude `m * 2^e` for an
//! integer mantissa `m` and a power-of-two exponent `e`; the embedder splits
//! the bit pattern and calls [`fixed_from_parts`], which carries out the
//! whole conversion on integers: scale by `2^16`, truncate toward zero, and
//! saturate to the 32-bit fixed-point range. Floating point itself never
//! enters this computation.

use vstd::prelude::*;

use vstd::arithmetic::div_mod::{
    lemma_basic_div, lemma_fundamental_div_mod, lemma_mod_division_less_than_divisor,
};
use vstd::arithmetic::mul::{lemma_mul_inequality, lemma_mul_is_distributive_add_other_way};
use vstd::arithmetic::power2::{lemma2_to64, lemma2_to64_rest, lemma_pow2_pos, lemma_pow2_strictly_increases, pow2};
use vstd::bits::{
    lemma_u64_mul_pow2_le_max_iff_max_shr, lemma_u64_shl_is_mul, lemma_u64_shr_is_div,
};

verus! {

/// The magnitude `m * 2^e`, scaled by `2^16` and truncated toward zero:
/// the unsigned value a 16.16 fixed-point encoding must carry.
pub open spec fn spec_fixed_magnitude(m: u64, e: int) -> int {
    if e + 16 >= 0 {
        m * pow2((e + 16) as nat)
    } else {
        m as int / pow2((-(e + 16)) as nat) as int
    }
}

/// Apply the sign to a truncated magnitude and saturate to the 32-bit
/// range, as the native cast to the fixed-point integer does.
pub open spec fn spec_saturate(negative: bool, t: int) -> i32 {
    if negative {
        if t > 0x80000000 {
            i32::MIN
        } else {
            (-t) as i32
        }
    } else {
        if t > 0x7fffffff {
            i32::MAX
        } else {
            t as i32
        }
    }
}

/// The 16.16 fixed-point encoding of the value `(-1)^negative * m * 2^e`:
/// scaled, truncated toward zero, saturated.
pub open spec fn spec_fixed(negative: bool, m: u64, e: int) -> i32 {
    spec_saturate(negative, spec_fixed_magnitude(m, e))
}

/// Convert a decomposed double to 16.16 fixed-point.
///
/// `mantissa * 2^exponent` is the magnitude of a finite double, so the
/// mantissa has at most 53 bits; the exponent bound is far wider than any
/// double's. The result is the scaled magnitude truncated toward zero —
/// never rounded away from it — with the sign applied and the value
/// saturated at the ends of the 32-bit range.
pub fn fixed_from_parts(negative: bool, mantissa: u64, exponent: i32) -> (r: i32)
    requires
        mantissa < 0x20000000000000u64,
        -2000 <= exponent <= 2000,
    ensures
        r == spec_fixed(negative, mantissa, exponent as int),
{
    if mantissa == 0 {
        proof {
            if exponent + 16 < 0 {
                lemma_pow2_pos((-(exponent + 16)) as nat);
                lemma_basic_div(0, pow2((-(exponent + 16)) as nat) as int);
            }
        }
        return 0;
    }
    let shift: i32 = exponent + 16;
    if shift >= 0 {
        if shift >= 64 {
            // with a mantissa of at least 1 the scaled magnitude reaches
            // 2^64, past either end of the 32-bit range
            proof {
                lemma2_to64();
                lemma_pow2_strictly_increases(32, shift as nat);
                lemma_mul_inequality(1, mantissa as int, pow2(shift as nat) as int);
            }
            if negative {
                i32::MIN
            } else {
                i32::MAX
            }
        } else {
            let sh: u64 = shift as u64;
            let bound: u64 = if negative {
                0x80000000u64
            } else {
                0x7fffffffu64
            };
            proof {
                lemma_u64_mul_pow2_le_max_iff_max_shr(mantissa, sh, bound);
            }
            if mantissa <= (bound >> sh) {
                proof {
                    lemma_u64_shl_is_mul(mantissa, sh);
                }
                let t: u64 = mantissa << sh;
                if negative {
                    (-(t as i64)) as i32
                } else {
                    t as i32
                }
            } else {
                if negative {
                    i32::MIN
                } else {
                    i32::MAX
                }
            }
        }
    } else {
        let down: i32 = -shift;
        if down >= 64 {
            // the mantissa has fewer than 64 bits, so the whole value lies
            // below one fixed-point unit and truncates to zero
            proof {
                lemma2_to64();
                lemma2_to64_rest();
                lemma_pow2_strictly_increases(53, down as nat);
                lemma_basic_div(mantissa as int, pow2(down as nat) as int);
            }
            0
        } else {
            let sd: u64 = down as u64;
            proof {
                lemma_u64_shr_is_div(mantissa, sd);
            }
            let t: u64 = mantissa >> sd;
            if negative {
                if t > 0x80000000u64 {
                    i32::MIN
                } else {
                    (-(t as i64)) as i32
                }
            } else {
                if t > 0x7fffffffu64 {
                    i32::MAX
                } else {
                    t as i32
                }
            }
        }
    }
}

/// Truncation is toward zero: a magnitude below one fixed-point unit —
/// `m * 2^e` below `2^-16`, however small the sign makes it — encodes to
/// exactly zero, not to the nearest unit.
pub proof fn lemma_small_fraction_encodes_to_zero(negative: bool, m: u64, e: int)
    requires
        e + 16 < 0,
        m < pow2((-(e + 16)) as nat),
    ensures
        spec_fixed(negative, m, e) == 0i32,
{
    lemma_pow2_pos((-(e + 16)) as nat);
    lemma_basic_div(m as int, pow2((-(e + 16)) as nat) as int);
}

/// The conversion loses less than one fixed-point unit. With a fractional
/// scale the encoded magnitude `v` pins the true magnitude into a window of
/// one unit, `v * d <= m < (v + 1) * d` for the denominator `d = 2^-(e+16)`;
/// with a whole scale it is exact. Decoding `v` by dividing by `2^16`
/// therefore lands within one unit-in-the-last-fixed-place of the original
/// value.
pub proof fn lemma_round_trip_within_one_unit(negative: bool, m: u64, e: int)
    requires
        spec_fixed_magnitude(m, e) <= 0x7fffffff,
    ensures
        e + 16 >= 0 ==> spec_fixed_magnitude(m, e) == m * pow2((e + 16) as nat),
        e + 16 < 0 ==> ({
            let v = spec_fixed_magnitude(m, e);
            let d = pow2((-(e + 16)) as nat) as int;
            &&& v * d <= m
            &&& m < (v + 1) * d
        }),
        spec_fixed(negative, m, e) == (if negative {
            (-spec_fixed_magnitude(m, e)) as i32
        } else {
            spec_fixed_magnitude(m, e) as i32
        }),
{
    if e + 16 < 0 {
        let d = pow2((-(e + 16)) as nat) as int;
        let v = m as int / d;
        lemma_pow2_pos((-(e + 16)) as nat);
        lemma_fundamental_div_mod(m as int, d);
        lemma_mod_division_less_than_divisor(m as int, d);
        lemma_mul_is_distributive_add_other_way(d, v, 1);
    }
}

} // verus!
