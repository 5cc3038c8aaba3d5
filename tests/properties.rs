use rate_limiter::{AssociatedEntity, Limiter};

const NANOS_PER_SEC: u128 = 1_000_000_000;

fn secs(n: u128) -> u128 {
    n * NANOS_PER_SEC
}

#[test]
fn capacity_bound_within_one_window() {
    let mut limiter = Limiter::new();
    limiter.add_limited_entity_at("user1".to_string(), 4, secs(60), secs(1));
    let mut allowed = 0;
    for i in 0..10u128 {
        if limiter.is_entity_limited_at("user1", secs(1) + i * secs(5)) == Some(true) {
            allowed += 1;
        }
    }
    assert_eq!(allowed, 4);
    assert_eq!(limiter.get_bucket_remaining("user1"), Some(0));
}

#[test]
fn exactly_capacity_allowed_of_many_calls() {
    let mut limiter = Limiter::new();
    limiter.add_limited_entity("user1".to_string(), 5, secs(60));
    let answers: Vec<Option<bool>> = (0..8).map(|_| limiter.is_entity_limited("user1")).collect();
    assert_eq!(answers.iter().filter(|a| **a == Some(true)).count(), 5);
    assert_eq!(answers.iter().filter(|a| **a == Some(false)).count(), 3);
}

#[test]
fn refill_happens_at_the_window_boundary() {
    let mut limiter = Limiter::new();
    limiter.add_limited_entity_at("user1".to_string(), 3, secs(10), 0);
    for _ in 0..3 {
        assert_eq!(limiter.is_entity_limited_at("user1", secs(1)), Some(true));
    }
    assert_eq!(limiter.is_entity_limited_at("user1", secs(10) - 1), Some(false));
    assert_eq!(limiter.is_entity_limited_at("user1", secs(10)), Some(true));
    assert_eq!(limiter.get_bucket_remaining("user1"), Some(2));
    let entry = limiter.remove_limited_entity("user1").unwrap();
    assert_eq!(entry.bucket_init, secs(10));
}

#[test]
fn many_elapsed_windows_give_no_extra_credit() {
    let mut limiter = Limiter::new();
    limiter.add_limited_entity_at("user1".to_string(), 2, secs(10), 0);
    assert_eq!(limiter.is_entity_limited_at("user1", secs(100)), Some(true));
    assert_eq!(limiter.get_bucket_remaining("user1"), Some(1));
    assert_eq!(limiter.is_entity_limited_at("user1", secs(101)), Some(true));
    assert_eq!(limiter.is_entity_limited_at("user1", secs(102)), Some(false));
}

#[test]
fn unregistered_key_is_always_absent() {
    let mut limiter = Limiter::new();
    limiter.add_limited_entity("user1".to_string(), 1, secs(10));
    for t in 0..3u128 {
        assert_eq!(limiter.is_entity_limited_at("ghost", secs(t * 20)), None);
        assert_eq!(limiter.get_bucket_remaining("ghost"), None);
    }
    assert_eq!(limiter.get_bucket_remaining("user1"), Some(1));
}

#[test]
fn reregistration_resets_state() {
    let mut limiter = Limiter::new();
    limiter.add_limited_entity_at("user1".to_string(), 2, secs(60), 0);
    assert_eq!(limiter.is_entity_limited_at("user1", 1), Some(true));
    assert_eq!(limiter.is_entity_limited_at("user1", 2), Some(true));
    assert_eq!(limiter.is_entity_limited_at("user1", 3), Some(false));
    limiter.add_limited_entity_at("user1".to_string(), 7, secs(30), 4);
    assert_eq!(limiter.get_bucket_remaining("user1"), Some(7));
    assert_eq!(limiter.is_entity_limited_at("user1", 5), Some(true));
    let entry = limiter.remove_limited_entity("user1").unwrap();
    assert_eq!(
        entry,
        AssociatedEntity { bucket: 6, bucket_init: 4, bucket_max: 7, refresh_rate: secs(30) }
    );
}

#[test]
fn removal_then_recheck_until_registered_again() {
    let mut limiter = Limiter::new();
    limiter.add_limited_entity_at("user1".to_string(), 3, secs(60), 0);
    limiter.add_limited_entity_at("user2".to_string(), 3, secs(60), 0);
    assert!(limiter.remove_limited_entity("user1").is_some());
    assert_eq!(limiter.is_entity_limited_at("user1", 1), None);
    assert_eq!(limiter.is_entity_limited_at("user2", 2), Some(true));
    assert_eq!(limiter.is_entity_limited_at("user1", secs(120)), None);
    limiter.add_limited_entity_at("user1".to_string(), 1, secs(60), secs(200));
    assert_eq!(limiter.is_entity_limited_at("user1", secs(201)), Some(true));
}

#[test]
fn exhausting_one_entity_leaves_the_other() {
    let mut limiter = Limiter::new();
    limiter.add_limited_entity("user1".to_string(), 3, secs(60));
    limiter.add_limited_entity("user2".to_string(), 5, secs(60));
    for _ in 0..4 {
        limiter.is_entity_limited("user1");
    }
    assert_eq!(limiter.get_bucket_remaining("user1"), Some(0));
    assert_eq!(limiter.get_bucket_remaining("user2"), Some(5));
}

#[test]
fn zero_capacity_is_always_denied() {
    let mut limiter = Limiter::new();
    limiter.add_limited_entity_at("user1".to_string(), 0, secs(1), 0);
    assert_eq!(limiter.is_entity_limited_at("user1", 0), Some(false));
    assert_eq!(limiter.is_entity_limited_at("user1", secs(5)), Some(false));
    assert_eq!(limiter.get_bucket_remaining("user1"), Some(0));
}

#[test]
fn zero_window_refills_on_every_request() {
    let mut limiter = Limiter::new();
    limiter.add_limited_entity_at("user1".to_string(), 1, 0, 0);
    for t in 0..5u128 {
        assert_eq!(limiter.is_entity_limited_at("user1", t), Some(true));
    }
}

#[test]
fn reading_before_window_start_counts_as_no_time() {
    let mut limiter = Limiter::new();
    limiter.add_limited_entity_at("user1".to_string(), 1, secs(10), secs(50));
    assert_eq!(limiter.is_entity_limited_at("user1", secs(50)), Some(true));
    assert_eq!(limiter.is_entity_limited_at("user1", secs(1)), Some(false));
}

#[test]
fn peek_does_not_refill() {
    let mut limiter = Limiter::new();
    limiter.add_limited_entity_at("user1".to_string(), 1, secs(1), 0);
    assert_eq!(limiter.is_entity_limited_at("user1", 0), Some(true));
    assert_eq!(limiter.get_bucket_remaining("user1"), Some(0));
    assert_eq!(limiter.is_entity_limited_at("user1", secs(2)), Some(true));
    assert_eq!(limiter.get_bucket_remaining("user1"), Some(0));
}

#[test]
fn take_request_on_a_bucket() {
    let mut entry = AssociatedEntity { bucket: 1, bucket_init: 10, bucket_max: 3, refresh_rate: 5 };
    assert!(entry.take_request(12));
    assert_eq!(entry.bucket, 0);
    assert!(!entry.take_request(14));
    assert!(entry.take_request(15));
    assert_eq!(entry, AssociatedEntity { bucket: 2, bucket_init: 15, bucket_max: 3, refresh_rate: 5 });
}

#[test]
fn clock_advances_from_the_start() {
    let limiter = Limiter::new();
    let a = limiter.now();
    let b = limiter.now();
    assert!(b >= a);
}
