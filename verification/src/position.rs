//! Position estimation for a pair of opposing photodiode channels.
//!
//! The sensor reports one unsigned 8-bit magnitude per channel. Two opposing
//! channels (up/down, or left/right) are combined into one signed axis
//! position. Positions are carried as fixed-point integers: one position unit
//! of the sensor scale corresponds to [`POSITION_SCALE`] ticks, so the whole
//! estimator stays in exact integer arithmetic.
//!
//! For magnitudes `a` and `b` the position is zero when `a == b`, and
//! otherwise `(510 - a - b) * (hi - lo) * POSITION_SCALE / hi`, negated when
//! `a > b`, where `hi` is the larger and `lo` the smaller of the two
//! magnitudes. `510 - a - b` is the combined magnitude centered around its
//! maximum, and the factor `(hi - lo) / hi` damps symmetric ambient
//! readings: the closer the two channels are to balance, the smaller the
//! reported position.

use vstd::prelude::*;

verus! {

/// Number of fixed-point ticks per position unit of the sensor scale.
pub const POSITION_SCALE: i32 = 256;

/// Twice the largest channel magnitude: the combined magnitude of two
/// channels is centered around this value.
pub const FULL_MAGNITUDE: i32 = 510;

/// Largest possible absolute position, in fixed-point ticks.
pub const POSITION_BOUND: i32 = 130560;

/// Absolute value of a mathematical integer.
pub open spec fn abs_int(x: int) -> int {
    if x < 0 {
        -x
    } else {
        x
    }
}

/// The signed axis position for opposing channel magnitudes `a` and `b`,
/// in fixed-point ticks.
pub open spec fn position_spec(a: u8, b: u8) -> int {
    if a == b {
        0
    } else {
        let hi = if a > b {
            a as int
        } else {
            b as int
        };
        let lo = if a > b {
            b as int
        } else {
            a as int
        };
        let magnitude = (FULL_MAGNITUDE - a - b) * (hi - lo) * POSITION_SCALE / hi;
        if a > b {
            -magnitude
        } else {
            magnitude
        }
    }
}

/// The position of two opposing channel magnitudes, as a fixed-point tick
/// count. An exact zero is returned at perfect balance; otherwise the
/// centered combined magnitude is scaled down by the balance of the two
/// channels.
pub fn position(a: u8, b: u8) -> (pos: i32)
    ensures
        pos == position_spec(a, b),
        -POSITION_BOUND <= pos <= POSITION_BOUND,
{
    if a == b {
        return 0;
    }
    let (hi, lo): (u32, u32) = if a > b {
        (a as u32, b as u32)
    } else {
        (b as u32, a as u32)
    };
    let centered: u32 = 510 - (a as u32) - (b as u32);
    let spread: u32 = hi - lo;
    proof {
        assert(centered * spread <= 510 * 255) by (nonlinear_arith)
            requires
                centered <= 510,
                spread <= 255,
        ;
    }
    let partial: u32 = centered * spread;
    let numerator: u32 = partial * 256;
    let magnitude: u32 = numerator / hi;
    proof {
        assert(numerator <= centered * 256 * hi) by (nonlinear_arith)
            requires
                numerator == centered * spread * 256,
                spread <= hi,
                0 <= centered,
        ;
        assert(magnitude <= centered * 256) by (nonlinear_arith)
            requires
                magnitude == (numerator as int) / (hi as int),
                numerator <= centered * 256 * hi,
                1 <= hi,
                0 <= numerator,
                0 <= centered,
        ;
    }
    let signed: i32 = magnitude as i32;
    if a > b {
        -signed
    } else {
        signed
    }
}

/// Law: every position lies within [`POSITION_BOUND`] ticks of zero,
/// however the two channels read.
pub proof fn lemma_position_in_bounds(a: u8, b: u8)
    ensures
        -POSITION_BOUND <= position_spec(a, b) <= POSITION_BOUND,
{
    if a != b {
        let hi = if a > b {
            a as int
        } else {
            b as int
        };
        let lo = if a > b {
            b as int
        } else {
            a as int
        };
        let centered = FULL_MAGNITUDE - a - b;
        let spread = hi - lo;
        assert(0 <= centered * spread * 256) by (nonlinear_arith)
            requires
                0 <= centered,
                0 <= spread,
        ;
        assert(0 <= centered * spread * 256 / hi) by (nonlinear_arith)
            requires
                1 <= hi,
                0 <= centered * spread * 256,
        ;
        assert(centered * spread * 256 <= centered * 256 * hi) by (nonlinear_arith)
            requires
                spread <= hi,
                0 <= centered,
        ;
        assert(centered * spread * 256 / hi <= centered * 256) by (nonlinear_arith)
            requires
                centered * spread * 256 <= centered * 256 * hi,
                1 <= hi,
                0 <= centered * spread * 256,
                0 <= centered,
        ;
    }
}

/// Law: the position estimate is antisymmetric in its two channels.
/// Swapping the channels flips the sign of the position exactly.
pub proof fn lemma_position_antisymmetric(a: u8, b: u8)
    ensures
        position_spec(a, b) == -position_spec(b, a),
{
}

/// Law: perfectly balanced channels give a position of exactly zero.
pub proof fn lemma_position_balanced_zero(a: u8)
    ensures
        position_spec(a, a) == 0,
{
}

/// Law: a full swing on one channel with the other dark reaches the
/// largest magnitude of the sensor scale, 255 position units.
pub proof fn lemma_position_full_swing()
    ensures
        position_spec(255, 0) == -255 * POSITION_SCALE,
        position_spec(0, 255) == 255 * POSITION_SCALE,
{
    assert((510 - 255 - 0) * (255 - 0) * 256 / 255 == 255 * 256);
    assert((510 - 0 - 255) * (255 - 0) * 256 / 255 == 255 * 256);
}

} // verus!
