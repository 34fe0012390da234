//! The corrections that CTGP stores beside the times of a ghost.
//!
//! The game shows a time cut off to the millisecond. For the finish time and
//! for each lap, the footer holds what has to be added to the time shown to
//! get the exact one: a number of milliseconds as a binary32 floating-point
//! number, mostly a negative one. Here such a number is turned into whole
//! picoseconds, from its bits and in whole numbers only: the product with
//! 10^9 is exact, and the result is its floor, the same on every machine.
//!
//! A binary32 number has a sign bit, eight bits of exponent and 23 bits of
//! fraction. Unless the exponent field is 255, its magnitude is
//! `significand * 2^exponent`. A millisecond is 10^9 picoseconds, and 10^9
//! is 1953125 * 2^9.

use vstd::prelude::*;
use vstd::arithmetic::power2::lemma2_to64;
use vstd::arithmetic::power2::lemma2_to64_rest;
use vstd::arithmetic::power2::lemma_pow2_pos;
use vstd::arithmetic::power2::lemma_pow2_strictly_increases;
use vstd::arithmetic::power2::pow2;

verus! {

/// Five to the ninth: the odd part of a billion.
pub const FIVE_TO_THE_NINTH: u64 = 1_953_125;

/// Whether the sign bit of a binary32 number is set.
pub open spec fn is_negative(bits: u32) -> bool {
    bits >= 0x8000_0000
}

/// The exponent field of a binary32 number.
pub open spec fn exponent_field(bits: u32) -> nat {
    (bits / 0x80_0000 % 0x100) as nat
}

/// The fraction field of a binary32 number.
pub open spec fn fraction_field(bits: u32) -> nat {
    (bits % 0x80_0000) as nat
}

/// The significand of a finite binary32 number, as a whole number: the
/// fraction, with a leading one unless the number is subnormal.
pub open spec fn significand(bits: u32) -> nat {
    if exponent_field(bits) == 0 {
        fraction_field(bits)
    } else {
        fraction_field(bits) + 0x80_0000
    }
}

/// The power of two that the significand of a finite binary32 number is
/// scaled by.
pub open spec fn exponent(bits: u32) -> int {
    if exponent_field(bits) == 0 {
        -149
    } else {
        exponent_field(bits) - 150
    }
}

/// The largest whole number that is not above `mag * 2^exp`, or above its
/// negative.
pub open spec fn floor_scaled(negative: bool, mag: nat, exp: int) -> int {
    if exp >= 0 {
        if negative {
            -(mag * pow2(exp as nat))
        } else {
            (mag * pow2(exp as nat)) as int
        }
    } else if negative {
        -((mag + pow2((-exp) as nat) - 1) / pow2((-exp) as nat) as int)
    } else {
        mag as int / pow2((-exp) as nat) as int
    }
}

/// `v` where a signed number of 64 bits can hold it, else the nearest
/// number that one can hold.
pub open spec fn clamped(v: int) -> i64 {
    if v < i64::MIN {
        i64::MIN
    } else if v > i64::MAX {
        i64::MAX
    } else {
        v as i64
    }
}

/// What a number that is not finite counts as: nothing for one that is no
/// number, the farthest number of its sign for an infinite one.
pub open spec fn not_finite_picoseconds(bits: u32) -> i64 {
    if fraction_field(bits) != 0 {
        0
    } else if is_negative(bits) {
        i64::MIN
    } else {
        i64::MAX
    }
}

/// The picoseconds of a correction, of the finish time or of a lap: the
/// largest whole number that is not above the milliseconds times 10^9. The
/// product is taken exactly; nothing is rounded before the floor.
pub open spec fn correction_picoseconds(bits: u32) -> i64 {
    if exponent_field(bits) == 255 {
        not_finite_picoseconds(bits)
    } else {
        clamped(
            floor_scaled(
                is_negative(bits),
                significand(bits) * FIVE_TO_THE_NINTH as nat,
                exponent(bits) + 9,
            ),
        )
    }
}

fn power_of_two(e: u32) -> (r: u64)
    requires
        e < 64,
    ensures
        r == pow2(e as nat),
        r >= 1,
{
    proof {
        vstd::bits::lemma_u64_pow2_no_overflow(e as nat);
        vstd::bits::lemma_u64_shl_is_mul(1, e as u64);
        lemma_pow2_pos(e as nat);
    }
    1u64 << e
}

fn floor_of_scaled(negative: bool, mag: u64, exp: i32) -> (r: i64)
    requires
        mag < 0x4000_0000_0000,
        -1000 <= exp <= 1000,
    ensures
        r == clamped(floor_scaled(negative, mag as nat, exp as int)),
{
    proof {
        lemma2_to64();
        lemma2_to64_rest();
    }
    if mag == 0 {
        proof {
            if exp < 0 {
                let unit = pow2((-exp) as nat) as int;
                lemma_pow2_pos((-exp) as nat);
                vstd::arithmetic::div_mod::lemma_basic_div(unit - 1, unit);
                vstd::arithmetic::div_mod::lemma_basic_div(0, unit);
            } else {
                assert(0 * pow2(exp as nat) == 0) by (nonlinear_arith);
            }
        }
        return 0;
    }
    if exp >= 0 {
        if exp >= 63 {
            proof {
                if exp > 63 {
                    lemma_pow2_strictly_increases(63, exp as nat);
                }
                let unit = pow2(exp as nat);
                assert(mag * unit >= unit) by (nonlinear_arith)
                    requires
                        mag >= 1,
                ;
            }
            return if negative {
                i64::MIN
            } else {
                i64::MAX
            };
        }
        let unit = power_of_two(exp as u32);
        let limit = 0x7FFF_FFFF_FFFF_FFFFu64 / unit;
        proof {
            vstd::arithmetic::div_mod::lemma_fundamental_div_mod(
                0x7FFF_FFFF_FFFF_FFFF,
                unit as int,
            );
        }
        if mag > limit {
            proof {
                assert(mag * unit > 0x7FFF_FFFF_FFFF_FFFF) by (nonlinear_arith)
                    requires
                        mag >= limit + 1,
                        unit >= 1,
                        0x7FFF_FFFF_FFFF_FFFF == unit * limit + 0x7FFF_FFFF_FFFF_FFFFint % (
                        unit as int),
                        0x7FFF_FFFF_FFFF_FFFFint % (unit as int) < unit,
                ;
            }
            return if negative {
                i64::MIN
            } else {
                i64::MAX
            };
        }
        proof {
            assert(mag * unit <= 0x7FFF_FFFF_FFFF_FFFF) by (nonlinear_arith)
                requires
                    mag <= limit,
                    unit >= 1,
                    0x7FFF_FFFF_FFFF_FFFF == unit * limit + 0x7FFF_FFFF_FFFF_FFFFint % (
                    unit as int),
                    0x7FFF_FFFF_FFFF_FFFFint % (unit as int) >= 0,
            ;
        }
        let product = mag * unit;
        if negative {
            -(product as i64)
        } else {
            product as i64
        }
    } else {
        let drop: u32 = (-exp) as u32;
        if drop >= 64 {
            proof {
                let unit = pow2(drop as nat) as int;
                if drop > 64 {
                    lemma_pow2_strictly_increases(64, drop as nat);
                }
                vstd::arithmetic::div_mod::lemma_basic_div(mag as int, unit);
                vstd::arithmetic::div_mod::lemma_fundamental_div_mod_converse(
                    mag + unit - 1,
                    unit,
                    1,
                    mag - 1,
                );
            }
            return if negative {
                -1
            } else {
                0
            };
        }
        let unit = power_of_two(drop);
        proof {
            assert(mag + unit - 1 <= unit * mag) by (nonlinear_arith)
                requires
                    mag >= 1,
                    unit >= 1,
            ;
            vstd::arithmetic::div_mod::lemma_div_is_ordered(
                mag + unit - 1,
                unit * mag,
                unit as int,
            );
            vstd::arithmetic::div_mod::lemma_div_multiples_vanish(mag as int, unit as int);
        }
        if negative {
            let up = (mag + (unit - 1)) / unit;
            -(up as i64)
        } else {
            (mag / unit) as i64
        }
    }
}

/// The picoseconds of a correction, from the bits of the number of
/// milliseconds.
pub fn correction_in_picoseconds(bits: u32) -> (r: i64)
    ensures
        r == correction_picoseconds(bits),
{
    let negative = bits >= 0x8000_0000;
    let exponent_field = bits / 0x80_0000 % 0x100;
    let fraction = bits % 0x80_0000;
    if exponent_field == 255 {
        return if fraction != 0 {
            0
        } else if negative {
            i64::MIN
        } else {
            i64::MAX
        };
    }
    let significand: u64 = if exponent_field == 0 {
        fraction as u64
    } else {
        fraction as u64 + 0x80_0000
    };
    let exponent: i32 = if exponent_field == 0 {
        -149
    } else {
        exponent_field as i32 - 150
    };
    assert(significand * FIVE_TO_THE_NINTH < 0x4000_0000_0000) by (nonlinear_arith)
        requires
            significand < 0x100_0000,
            FIVE_TO_THE_NINTH == 1_953_125,
    ;
    floor_of_scaled(negative, significand * FIVE_TO_THE_NINTH, exponent + 9)
}

} // verus!
