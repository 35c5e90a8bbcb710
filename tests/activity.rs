use minixpd::activity::{
    plan_grant, reconcile_reward, record_grant, release_grant, ActivityPlan, XP_GRANT_MAX, XP_GRANT_MIN,
};
use minixpd::cooldown::MessagingCache;

#[test]
fn gated_messages_earn_nothing() {
    let mut cache = MessagingCache::new();
    assert_eq!(plan_grant(&mut cache, None, 1, false), ActivityPlan::Ignore);
    assert_eq!(plan_grant(&mut cache, Some(9), 1, true), ActivityPlan::Ignore);
    assert!(!cache.contains(9, 1));
    cache.add(9, 1);
    assert_eq!(plan_grant(&mut cache, Some(9), 1, false), ActivityPlan::Ignore);
}

#[test]
fn grants_fall_within_bounds() {
    for _ in 0..200 {
        let mut cache = MessagingCache::new();
        match plan_grant(&mut cache, Some(9), 1, false) {
            ActivityPlan::Grant { guild, user, amount } => {
                assert_eq!((guild, user), (9, 1));
                assert!((XP_GRANT_MIN..=XP_GRANT_MAX).contains(&amount));
            }
            ActivityPlan::Ignore => panic!("expected a grant"),
        }
        assert!(cache.contains(9, 1));
    }
}

#[test]
fn racing_messages_get_one_grant() {
    let mut cache = MessagingCache::new();
    let first = plan_grant(&mut cache, Some(9), 1, false);
    let second = plan_grant(&mut cache, Some(9), 1, false);
    assert!(matches!(first, ActivityPlan::Grant { .. }));
    assert_eq!(second, ActivityPlan::Ignore);
    assert!(matches!(plan_grant(&mut cache, Some(9), 2, false), ActivityPlan::Grant { .. }));
}

#[test]
fn failed_write_releases_the_window() {
    let mut cache = MessagingCache::new();
    assert!(matches!(plan_grant(&mut cache, Some(9), 1, false), ActivityPlan::Grant { .. }));
    release_grant(&mut cache, 9, 1);
    assert!(!cache.contains(9, 1));
    assert!(matches!(plan_grant(&mut cache, Some(9), 1, false), ActivityPlan::Grant { .. }));
}

#[test]
fn recorded_grant_reports_the_level() {
    assert_eq!(record_grant(120).level, 1);
    assert_eq!(record_grant(260).level, 2);
    assert_eq!(record_grant(0).level, 0);
}

#[test]
fn reward_reconciliation() {
    let roles = vec![3, 77, 5];
    assert_eq!(reconcile_reward(Some(77), Some(&roles)), None);
    assert_eq!(reconcile_reward(Some(8), Some(&roles)), Some(8));
    assert_eq!(reconcile_reward(Some(8), None), Some(8));
    assert_eq!(reconcile_reward(None, Some(&roles)), None);
    assert_eq!(reconcile_reward(None, None), None);
}
