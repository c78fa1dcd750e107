//! Fixed-point reading of an axis bit pattern.
//!
//! Command axes travel as IEEE-754 single-precision bit patterns. The
//! library never computes with floating point: it reads the sign, exponent
//! and fraction fields out of the 32 bits and produces a signed fixed-point
//! value with [`AXIS_ONE`] (2^20) standing for 1.0. Magnitudes are truncated
//! toward zero; magnitudes of 32768.0 and above, and infinities, saturate at
//! [`AXIS_SAT`]; NaN has no magnitude and reads as 0 (the mapper detects
//! NaN separately through [`is_nan_bits`] and gives it a tick of its own).
//! The saturation bound is far outside the nominal `[-1.0, 1.0]` axis
//! range, so it never changes a duty-cycle tick that the 12-bit actuator
//! range would admit.

use vstd::prelude::*;
use vstd::arithmetic::power2::{
    pow2, lemma2_to64, lemma2_to64_rest, lemma_pow2_strictly_increases, lemma_pow2_unfold,
};
use vstd::arithmetic::div_mod::{
    lemma_basic_div, lemma_div_nonincreasing, lemma_fundamental_div_mod_converse,
};
use vstd::arithmetic::power2::lemma_pow2_pos;

verus! {

/// Fixed-point value of 1.0: one axis unit is 2^-20.
pub const AXIS_ONE: u64 = 0x10_0000;

/// Saturation bound of the fixed-point magnitude: 2^35, i.e. 32768.0.
pub const AXIS_SAT: u64 = 0x8_0000_0000;

/// Sign field of an IEEE-754 single bit pattern: 0 or 1.
pub open spec fn f32_sign(bits: u32) -> int {
    (bits as int) / 0x8000_0000
}

/// Biased exponent field of an IEEE-754 single bit pattern: 0 to 255.
pub open spec fn f32_exp(bits: u32) -> int {
    ((bits as int) / 0x80_0000) % 0x100
}

/// Fraction field of an IEEE-754 single bit pattern: the low 23 bits.
pub open spec fn f32_frac(bits: u32) -> int {
    (bits as int) % 0x80_0000
}

/// Fixed-point magnitude of the value a bit pattern encodes.
///
/// For a finite value the magnitude is `(2^23 + frac) * 2^(exp - 130)`,
/// truncated toward zero: the significand scaled so that exponent 127
/// (value 1.0, frac 0) lands exactly on [`AXIS_ONE`]. Exponents of 142 and
/// above (32768.0 and beyond) and infinities saturate at [`AXIS_SAT`]; NaN
/// and subnormals (which are below one fixed-point unit) read as 0.
pub open spec fn axis_mag(bits: u32) -> int {
    let e = f32_exp(bits);
    let m = f32_frac(bits);
    if e == 255 {
        if m == 0 {
            AXIS_SAT as int
        } else {
            0
        }
    } else if e >= 142 {
        AXIS_SAT as int
    } else if e >= 130 {
        (0x80_0000 + m) * pow2((e - 130) as nat)
    } else if e == 0 {
        0
    } else {
        (0x80_0000 + m) / (pow2((130 - e) as nat) as int)
    }
}

/// Signed fixed-point value of an axis bit pattern.
pub open spec fn axis_fixed(bits: u32) -> int {
    if f32_sign(bits) == 1 {
        -axis_mag(bits)
    } else {
        axis_mag(bits)
    }
}

/// Whether a bit pattern encodes NaN: all exponent bits set and a nonzero
/// fraction.
pub open spec fn is_nan_bits(bits: u32) -> bool {
    f32_exp(bits) == 255 && f32_frac(bits) != 0
}

/// Tests a bit pattern for NaN.
pub fn axis_is_nan(bits: u32) -> (r: bool)
    ensures
        r == is_nan_bits(bits),
{
    let e = (bits / 0x80_0000) % 0x100;
    let m = bits % 0x80_0000;
    e == 255 && m != 0
}

/// Reads the three IEEE-754 fields off a bit pattern given as the witness
/// decomposition `sign * 2^31 + exp * 2^23 + frac`.
pub proof fn lemma_f32_fields(bits: u32, sign: int, exp: int, frac: int)
    requires
        0 <= sign < 2,
        0 <= exp < 0x100,
        0 <= frac < 0x80_0000,
        bits == sign * 0x8000_0000 + exp * 0x80_0000 + frac,
    ensures
        f32_sign(bits) == sign,
        f32_exp(bits) == exp,
        f32_frac(bits) == frac,
{
    lemma_fundamental_div_mod_converse(
        bits as int,
        0x8000_0000,
        sign,
        exp * 0x80_0000 + frac,
    );
    lemma_fundamental_div_mod_converse(bits as int, 0x80_0000, sign * 0x100 + exp, frac);
    lemma_fundamental_div_mod_converse(sign * 0x100 + exp, 0x100, sign, exp);
}

/// 2^k for small k, computed by repeated doubling.
fn pow2_small(k: u64) -> (r: u64)
    requires
        k <= 35,
    ensures
        r == pow2(k as nat),
{
    let mut i: u64 = 0;
    let mut r: u64 = 1;
    proof {
        lemma2_to64();
        lemma2_to64_rest();
    }
    while i < k
        invariant
            i <= k,
            k <= 35,
            r == pow2(i as nat),
            pow2(35) == 0x8_0000_0000u64,
        decreases k - i,
    {
        proof {
            lemma_pow2_unfold((i + 1) as nat);
            if i + 1 < 35 {
                lemma_pow2_strictly_increases((i + 1) as nat, 35);
            }
        }
        r = r * 2;
        i = i + 1;
    }
    r
}

/// Splits an axis bit pattern into its fixed-point magnitude and its sign.
///
/// Returns `(magnitude, negative)`; the magnitude never exceeds
/// [`AXIS_SAT`].
pub fn axis_fixed_parts(bits: u32) -> (r: (u64, bool))
    ensures
        r.0 == axis_mag(bits),
        r.0 <= AXIS_SAT,
        r.1 <==> f32_sign(bits) == 1,
        axis_fixed(bits) == if r.1 {
            -(r.0 as int)
        } else {
            r.0 as int
        },
{
    let sign = bits / 0x8000_0000;
    let e = (bits / 0x80_0000) % 0x100;
    let m = (bits % 0x80_0000) as u64;
    let significand: u64 = 0x80_0000u64 + m;
    let mag: u64 = if e == 255 {
        if m == 0 {
            AXIS_SAT
        } else {
            0
        }
    } else if e >= 142 {
        AXIS_SAT
    } else if e >= 130 {
        let p = pow2_small((e - 130) as u64);
        proof {
            lemma2_to64();
            if ((e - 130) as nat) < 11 {
                lemma_pow2_strictly_increases((e - 130) as nat, 11);
            }
            assert(significand * p <= 0xff_ffff * 0x800) by (nonlinear_arith)
                requires
                    significand <= 0xff_ffff,
                    p <= 0x800,
                    0 <= significand,
                    0 <= p,
            ;
        }
        significand * p
    } else if e >= 107 {
        let p = pow2_small((130 - e) as u64);
        proof {
            lemma_pow2_pos((130 - e) as nat);
            lemma_div_nonincreasing(significand as int, p as int);
        }
        significand / p
    } else {
        // exponents of 106 and below (subnormals included) are under one
        // fixed-point unit and truncate to zero
        proof {
            if 1 <= e {
                lemma2_to64();
                if 24 < (130 - e) as nat {
                    lemma_pow2_strictly_increases(24, (130 - e) as nat);
                }
                lemma_basic_div(significand as int, pow2((130 - e) as nat) as int);
            }
        }
        0
    };
    (mag, sign == 1)
}

} // verus!
