use minixpd::text::{i64_to_decimal, u64_to_decimal};
use minixpd::levels::{level_for_xp, progress_percent, xp_required};

#[test]
fn level_boundary_at_first_threshold() {
    assert_eq!(xp_required(0), Some(0));
    assert_eq!(xp_required(1), Some(100));
    assert_eq!(level_for_xp(99), 0);
    assert_eq!(level_for_xp(100), 1);
    assert_eq!(level_for_xp(0), 0);
}

#[test]
fn level_of_a_known_total() {
    assert_eq!(level_for_xp(3255), 8);
    assert_eq!(xp_required(8), Some(2900));
    assert_eq!(xp_required(9), Some(3720));
    assert_eq!(progress_percent(3255), 43);
}

#[test]
fn thresholds_follow_the_quadratic_cost() {
    assert_eq!(xp_required(2), Some(255));
    assert_eq!(xp_required(3), Some(475));
    assert_eq!(level_for_xp(254), 1);
    assert_eq!(level_for_xp(255), 2);
    assert_eq!(progress_percent(100), 0);
    assert_eq!(progress_percent(254), 99);
}

#[test]
fn level_is_monotonic_and_bracketed() {
    let mut last = 0;
    let mut xp = 0u64;
    while xp < 200_000 {
        let level = level_for_xp(xp);
        assert!(level >= last);
        let low = xp_required(level).unwrap();
        let high = xp_required(level + 1).unwrap();
        assert!(low <= xp && xp < high);
        last = level;
        xp += 37;
    }
}

#[test]
fn largest_experience_has_a_level() {
    let level = level_for_xp(u64::MAX);
    assert!(xp_required(level).unwrap() <= u64::MAX);
    assert_eq!(xp_required(level + 1), None);
    assert_eq!(xp_required(u64::MAX), None);
    assert!(progress_percent(u64::MAX) <= 100);
}

#[test]
fn decimal_text_of_extremes() {
    assert_eq!(u64_to_decimal(0), "0");
    assert_eq!(u64_to_decimal(u64::MAX), "18446744073709551615");
    assert_eq!(i64_to_decimal(i64::MIN), "-9223372036854775808");
    assert_eq!(i64_to_decimal(-1), "-1");
    assert_eq!(i64_to_decimal(1070), "1070");
}
