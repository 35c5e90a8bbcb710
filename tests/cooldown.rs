use minixpd::cooldown::{MessagingCache, COOLDOWN_SECS};

#[test]
fn second_grant_within_window_is_refused() {
    let mut cache = MessagingCache::new();
    assert_eq!(COOLDOWN_SECS, 60);
    assert!(!cache.contains(1, 2));
    assert!(cache.add(1, 2));
    assert!(cache.contains(1, 2));
    assert!(!cache.add(1, 2));
    cache.expire(1, 2);
    assert!(!cache.contains(1, 2));
    assert!(cache.add(1, 2));
}

#[test]
fn exactly_one_of_many_attempts_wins() {
    let mut cache = MessagingCache::new();
    let mut wins = 0;
    for _ in 0..16 {
        if cache.add(7, 9) {
            wins += 1;
        }
        assert!(!cache.contains(7, 10));
    }
    assert_eq!(wins, 1);
}

#[test]
fn pairs_are_independent() {
    let mut cache = MessagingCache::new();
    assert!(cache.add(1, 2));
    assert!(cache.add(2, 1));
    assert!(cache.add(1, 3));
    cache.expire(1, 2);
    assert!(cache.contains(2, 1));
    assert!(!cache.contains(1, 2));
    cache.expire(5, 5);
    assert!(cache.contains(1, 3));
}
