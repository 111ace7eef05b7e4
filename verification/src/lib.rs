//! Levels and progress derived from an accumulated XP count.
//!
//! A `LevelInfo` bundles, for one XP count, the level it reaches and the
//! percentage of progress from that level's threshold toward the next one,
//! both computed eagerly at construction from the cubic threshold curve in
//! [`threshold`].

use vstd::arithmetic::div_mod::lemma_multiply_divide_lt;
use vstd::prelude::*;

pub mod threshold;

use crate::threshold::{
    lemma_threshold_at_least_cube, lemma_threshold_exceeds_u64, lemma_threshold_monotone,
    lemma_threshold_step, threshold, threshold_for_level, LEVEL_CEILING,
};

verus! {

/// Everything derived from one XP count: the count itself, the level whose
/// threshold it has reached, and the progress toward the next level.
#[derive(Copy, Clone, PartialEq, Eq, Structural, PartialOrd, Ord, Debug)]
pub struct LevelInfo {
    xp: u64,
    level: u64,
    percentage: u8,
}

impl LevelInfo {
    /// The XP count this `LevelInfo` was built from.
    pub closed spec fn spec_xp(&self) -> u64 {
        self.xp
    }

    /// The level derived from the XP count.
    pub closed spec fn spec_level(&self) -> u64 {
        self.level
    }

    /// The progress percentage derived from the XP count.
    pub closed spec fn spec_percentage(&self) -> u8 {
        self.percentage
    }

    /// The level's threshold does not exceed the XP, the next level's
    /// threshold does, and the percentage is the floored ratio of the
    /// progress between those two thresholds.
    pub open spec fn wf(&self) -> bool {
        &&& threshold(self.spec_level() as int) <= self.spec_xp() as int
        &&& (self.spec_xp() as int) < threshold(self.spec_level() as int + 1)
        &&& self.spec_percentage() as int == 100 * (self.spec_xp() as int - threshold(
            self.spec_level() as int,
        )) / (threshold(self.spec_level() as int + 1) - threshold(self.spec_level() as int))
    }

    /// Compute the level and progress percentage for `xp`, eagerly, so the
    /// getters are field reads. The level is found by walking the threshold
    /// curve upward until it passes `xp`; the curve climbs by at least 100 XP
    /// per level, so the walk stops at the unique level whose threshold
    /// sandwiches `xp`.
    #[must_use]
    pub fn new(xp: u64) -> (r: Self)
        ensures
            r.spec_xp() == xp,
            r.wf(),
            r.spec_percentage() <= 99,
    {
        let mut level: u64 = 0;
        let mut next: u128 = threshold_for_level(1);
        while next <= xp as u128
            invariant
                level < LEVEL_CEILING,
                next == threshold(level as int + 1),
                threshold(level as int) <= xp as int,
            decreases LEVEL_CEILING - level,
        {
            proof {
                if level as int + 1 >= LEVEL_CEILING {
                    lemma_threshold_exceeds_u64(level as int + 1);
                }
            }
            level = level + 1;
            next = threshold_for_level(level + 1);
        }
        let cur: u128 = threshold_for_level(level);
        proof {
            lemma_threshold_step(level as int);
        }
        let num: u128 = 100 * (xp as u128 - cur);
        let den: u128 = next - cur;
        proof {
            lemma_multiply_divide_lt(num as int, den as int, 100);
        }
        let percentage: u8 = (num / den) as u8;
        Self { xp, level, percentage }
    }

    /// The XP that was put into this `LevelInfo`.
    #[must_use]
    pub fn xp(&self) -> (r: u64)
        ensures
            r == self.spec_xp(),
    {
        self.xp
    }

    /// The level that this `LevelInfo` represents.
    #[must_use]
    pub fn level(&self) -> (r: u64)
        ensures
            r == self.spec_level(),
    {
        self.level
    }

    /// The percentage of the way this `LevelInfo` is to the next level,
    /// counted from the last level's threshold.
    #[must_use]
    pub fn percentage(&self) -> (r: u8)
        ensures
            r == self.spec_percentage(),
    {
        self.percentage
    }
}

/// Every well-formed `LevelInfo` keeps its percentage between 0 and 99: the
/// XP sits strictly below the next threshold, so the floored ratio never
/// reaches 100.
pub proof fn lemma_percentage_in_range(info: LevelInfo)
    requires
        info.wf(),
    ensures
        info.spec_percentage() <= 99,
{
    let l = info.spec_level() as int;
    let x = info.spec_xp() as int;
    let cur = threshold(l);
    let den = threshold(l + 1) - cur;
    lemma_threshold_step(l);
    lemma_multiply_divide_lt(100 * (x - cur), den, 100);
}

/// More XP never means a lower level: of two well-formed values, the one
/// built from the smaller XP count carries the smaller (or equal) level.
pub proof fn lemma_level_monotone(a: LevelInfo, b: LevelInfo)
    requires
        a.wf(),
        b.wf(),
        a.spec_xp() <= b.spec_xp(),
    ensures
        a.spec_level() <= b.spec_level(),
{
    if a.spec_level() > b.spec_level() {
        lemma_threshold_monotone(b.spec_level() as int + 1, a.spec_level() as int);
    }
}

/// An empty XP count sits at level 0 with no progress at all.
pub proof fn lemma_zero_xp(info: LevelInfo)
    requires
        info.wf(),
        info.spec_xp() == 0,
    ensures
        info.spec_level() == 0,
        info.spec_percentage() == 0,
{
    let l = info.spec_level() as int;
    if l >= 1 {
        lemma_threshold_at_least_cube(l);
        assert(l * l * l >= 1) by (nonlinear_arith)
            requires
                l >= 1,
        ;
    }
}

/// The XP count fully determines a well-formed `LevelInfo`: two well-formed
/// values built from the same XP are equal, field for field.
pub proof fn lemma_same_xp_same_info(a: LevelInfo, b: LevelInfo)
    requires
        a.wf(),
        b.wf(),
        a.spec_xp() == b.spec_xp(),
    ensures
        a == b,
{
    lemma_level_monotone(a, b);
    lemma_level_monotone(b, a);
}

} // verus!
