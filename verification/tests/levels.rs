use mee6::threshold::threshold_for_level;
use mee6::LevelInfo;

/// The threshold curve recomputed independently of the library, in exact
/// integer arithmetic: (5/6) * level * (2*level^2 + 27*level + 91).
fn reference_threshold(level: u128) -> u128 {
    5 * level * (2 * level * level + 27 * level + 91) / 6
}

#[test]
fn level() {
    let inf = LevelInfo::new(3255);
    assert_eq!(inf.level(), 8);
}

#[test]
fn xp() {
    let inf = LevelInfo::new(3255);
    assert_eq!(inf.xp(), 3255);
}

#[test]
fn percentage() {
    let inf = LevelInfo::new(3255);
    assert_eq!(inf.percentage(), 43);
}

#[test]
fn xp_is_kept_unchanged() {
    let samples: [u64; 6] = [0, 1, 99, 100, 3255, 1_000_000_000];
    for &x in samples.iter() {
        assert_eq!(LevelInfo::new(x).xp(), x);
    }
}

#[test]
fn zero_xp_is_level_zero_with_no_progress() {
    let inf = LevelInfo::new(0);
    assert_eq!(inf.level(), 0);
    assert_eq!(inf.percentage(), 0);
    assert_eq!(inf.xp(), 0);
}

#[test]
fn exact_threshold_starts_its_level_at_zero_percent() {
    // reference_threshold(5) == 5 * 5 * (50 + 135 + 91) / 6 == 6900 / 6 == 1150
    assert_eq!(reference_threshold(5), 1150);
    let inf = LevelInfo::new(1150);
    assert_eq!(inf.level(), 5);
    assert_eq!(inf.percentage(), 0);
}

#[test]
fn one_below_a_threshold_stays_on_the_level_before() {
    let inf = LevelInfo::new(1149);
    assert_eq!(inf.level(), 4);
    assert_eq!(inf.percentage(), 99);
}

#[test]
fn percentage_never_reaches_100() {
    for x in 0u64..20_000u64 {
        let p: u8 = LevelInfo::new(x).percentage();
        assert!(p <= 99);
    }
}

#[test]
fn level_is_monotone_in_xp() {
    let mut prev: u64 = 0;
    for x in 0u64..20_000u64 {
        let l: u64 = LevelInfo::new(x).level();
        assert!(prev <= l);
        prev = l;
    }
}

#[test]
fn computed_level_is_sandwiched_by_thresholds() {
    let samples: [u64; 8] = [0, 1, 100, 1149, 1150, 3255, 123_456_789, u64::MAX];
    for &x in samples.iter() {
        let l: u64 = LevelInfo::new(x).level();
        assert!(reference_threshold(l as u128) <= x as u128);
        assert!(reference_threshold(l as u128 + 1) > x as u128);
    }
}

#[test]
fn same_xp_gives_equal_results() {
    let a = LevelInfo::new(3255);
    let b = LevelInfo::new(3255);
    assert_eq!(a, b);
    assert!(!(a < b) && !(b < a));
}

#[test]
fn ordering_follows_xp() {
    let lo = LevelInfo::new(10);
    let hi = LevelInfo::new(9_999);
    assert!(lo < hi);
    assert!(hi > lo);
}

#[test]
fn threshold_for_level_matches_the_curve() {
    assert_eq!(threshold_for_level(0), 0);
    assert_eq!(threshold_for_level(1), 100);
    assert_eq!(threshold_for_level(5), 1150);
    assert_eq!(threshold_for_level(8), 2900);
    assert_eq!(threshold_for_level(9), 3720);
    for l in 0u64..2_000u64 {
        assert_eq!(threshold_for_level(l), reference_threshold(l as u128));
    }
}
