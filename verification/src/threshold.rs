//! The threshold curve: cumulative XP required to reach a given level.
//!
//! The curve is the cubic `(5/6) * level * (2*level^2 + 27*level + 91)`.
//! At every integer level the product before the division by 6 is divisible
//! by 6 (it is even, and a multiple of 3, for every integer argument), so the
//! curve takes exact integer values there and all arithmetic here is exact.

use vstd::arithmetic::div_mod::{
    lemma_div_is_ordered, lemma_div_multiples_vanish, lemma_hoist_over_denominator,
};
use vstd::prelude::*;

verus! {

/// Largest argument `threshold_for_level` accepts; far above every level any
/// `u64` XP count can reach, while keeping the `u128` intermediate products of
/// the cubic well below overflow.
pub const MAX_THRESHOLD_LEVEL: u64 = 1000000000000;

/// No level reachable from a `u64` XP count is this large: the threshold of
/// this level already exceeds `u64::MAX` (see `lemma_threshold_exceeds_u64`).
pub const LEVEL_CEILING: u64 = 3000000;

/// Six times the cumulative XP needed to reach `level`. Working at this scale
/// keeps the curve a plain polynomial, with no division.
pub open spec fn scaled_threshold(level: int) -> int {
    5 * level * (2 * level * level + 27 * level + 91)
}

/// Cumulative XP needed to reach `level`:
/// `(5/6) * level * (2*level^2 + 27*level + 91)`.
pub open spec fn threshold(level: int) -> int {
    scaled_threshold(level) / 6
}

/// How the scaled curve grows from one integer level to the next.
proof fn lemma_scaled_threshold_step(level: int)
    ensures
        scaled_threshold(level + 1) == scaled_threshold(level) + 30 * level * level + 300 * level
            + 600,
{
    assert(5 * (level + 1) * (2 * (level + 1) * (level + 1) + 27 * (level + 1) + 91) == 5 * level
        * (2 * level * level + 27 * level + 91) + 30 * level * level + 300 * level + 600)
        by (nonlinear_arith);
}

/// From one non-negative integer level to the next, the threshold climbs by
/// at least 100 XP.
pub proof fn lemma_threshold_step(level: int)
    requires
        level >= 0,
    ensures
        threshold(level) + 100 <= threshold(level + 1),
{
    lemma_scaled_threshold_step(level);
    let s = scaled_threshold(level);
    assert(30 * level * level + 300 * level >= 0) by (nonlinear_arith)
        requires
            level >= 0,
    ;
    lemma_div_is_ordered(s + 600, scaled_threshold(level + 1), 6);
    lemma_hoist_over_denominator(s, 100, 6);
}

/// The threshold never decreases as the level climbs.
pub proof fn lemma_threshold_monotone(lo: int, hi: int)
    requires
        0 <= lo <= hi,
    ensures
        threshold(lo) <= threshold(hi),
    decreases hi - lo,
{
    if lo < hi {
        lemma_threshold_monotone(lo, hi - 1);
        lemma_threshold_step(hi - 1);
    }
}

/// The threshold of a non-negative level dominates its cube.
pub proof fn lemma_threshold_at_least_cube(level: int)
    requires
        level >= 0,
    ensures
        threshold(level) >= level * level * level,
{
    let cube = level * level * level;
    assert(5 * level * (2 * level * level + 27 * level + 91) >= 6 * (level * level * level))
        by (nonlinear_arith)
        requires
            level >= 0,
    ;
    lemma_div_is_ordered(6 * cube, scaled_threshold(level), 6);
    lemma_div_multiples_vanish(cube, 6);
}

/// At `LEVEL_CEILING` and beyond, the threshold is out of reach of any `u64`
/// XP count, so a search driven by such a count stays below the ceiling.
pub proof fn lemma_threshold_exceeds_u64(level: int)
    requires
        level >= LEVEL_CEILING,
    ensures
        threshold(level) > u64::MAX,
{
    lemma_threshold_at_least_cube(level);
    assert(level * level * level >= 27000000000000000000) by (nonlinear_arith)
        requires
            level >= 3000000,
    ;
}

/// Evaluate the threshold curve exactly, at an integer level.
pub fn threshold_for_level(level: u64) -> (r: u128)
    requires
        level <= MAX_THRESHOLD_LEVEL,
    ensures
        r == threshold(level as int),
{
    let l: u128 = level as u128;
    proof {
        assert(2 * l * l <= 2000000000000000000000000) by (nonlinear_arith)
            requires
                l <= 1000000000000,
        ;
    }
    let quadratic: u128 = 2 * l * l + 27 * l + 91;
    proof {
        assert(5 * l * quadratic <= 15000000000000000000000000000000000000) by (nonlinear_arith)
            requires
                l <= 1000000000000,
                quadratic <= 3000000000000000000000000,
        ;
    }
    let scaled: u128 = 5 * l * quadratic;
    scaled / 6
}

} // verus!
