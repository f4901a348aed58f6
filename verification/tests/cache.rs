use extension_host::host::cache::{wait_list_age_secs, CacheLookup, LegacyCache};

fn hit(found: CacheLookup) -> Vec<u8> {
    match found {
        CacheLookup::Hit(data) => data,
        CacheLookup::Miss { .. } => panic!("miss"),
        CacheLookup::Wait { .. } => panic!("wait"),
    }
}

#[test]
fn first_lookup_is_a_miss_and_creates_the_wait_list() {
    let mut cache = LegacyCache::new();
    assert!(matches!(cache.get_at("k", 0, 7, 1), CacheLookup::Miss { epoch_id: 7 }));
}

#[test]
fn second_lookup_waits_and_set_hands_the_value_to_it() {
    let mut cache = LegacyCache::new();
    assert!(matches!(cache.get_at("k", 0, 7, 1), CacheLookup::Miss { epoch_id: 7 }));
    assert!(matches!(cache.get_at("k", 1, 8, 2), CacheLookup::Wait { epoch_id: 7 }));
    let waiters = cache.set("k", b"value".to_vec(), None, 2);
    assert_eq!(waiters, vec![2]);
    assert_eq!(hit(cache.get_at("k", 3, 9, 3)), b"value".to_vec());
}

#[test]
fn waiters_are_released_in_the_order_of_arrival() {
    let mut cache = LegacyCache::new();
    assert!(matches!(cache.get_at("k", 0, 1, 10), CacheLookup::Miss { epoch_id: 1 }));
    for waiter in 11..20u64 {
        assert!(matches!(cache.get_at("k", waiter, 100 + waiter as u128, waiter), CacheLookup::Wait { epoch_id: 1 }));
    }
    assert_eq!(cache.set("k", vec![1], None, 30), (11..20u64).collect::<Vec<u64>>());
    assert_eq!(cache.set("k", vec![1], None, 31), Vec::<u64>::new());
}

#[test]
fn keys_do_not_share_wait_lists() {
    let mut cache = LegacyCache::new();
    assert!(matches!(cache.get_at("a", 0, 1, 1), CacheLookup::Miss { epoch_id: 1 }));
    assert!(matches!(cache.get_at("b", 0, 2, 2), CacheLookup::Miss { epoch_id: 2 }));
    assert!(matches!(cache.get_at("a", 0, 3, 3), CacheLookup::Wait { epoch_id: 1 }));
    assert_eq!(cache.set("b", vec![2], None, 1), Vec::<u64>::new());
    assert_eq!(cache.set("a", vec![1], None, 1), vec![3]);
    assert_eq!(hit(cache.get_at("a", 2, 4, 4)), vec![1]);
    assert_eq!(hit(cache.get_at("b", 2, 5, 5)), vec![2]);
}

#[test]
fn set_twice_with_the_same_value_reads_like_set_once() {
    let mut once = LegacyCache::new();
    once.set("k", vec![9, 9], Some(10), 100);
    let mut twice = LegacyCache::new();
    twice.set("k", vec![9, 9], Some(10), 100);
    twice.set("k", vec![9, 9], Some(10), 100);
    for now in [100u64, 105, 110] {
        assert_eq!(hit(once.get_at("k", now, 1, 1)), vec![9, 9]);
        assert_eq!(hit(twice.get_at("k", now, 1, 1)), vec![9, 9]);
    }
    assert!(matches!(once.get_at("k", 111, 1, 1), CacheLookup::Miss { epoch_id: 1 }));
    assert!(matches!(twice.get_at("k", 111, 1, 1), CacheLookup::Miss { epoch_id: 1 }));
}

#[test]
fn set_overwrites_the_value() {
    let mut cache = LegacyCache::new();
    cache.set("k", vec![1], None, 0);
    cache.set("k", vec![2], None, 0);
    assert_eq!(hit(cache.get_at("k", 0, 1, 1)), vec![2]);
}

#[test]
fn value_is_served_until_its_expiry_and_not_after() {
    let mut cache = LegacyCache::new();
    cache.set("k", vec![1], Some(50), 1000);
    assert_eq!(hit(cache.get_at("k", 1000, 1, 1)), vec![1]);
    assert_eq!(hit(cache.get_at("k", 1050, 1, 1)), vec![1]);
    assert!(matches!(cache.get_at("k", 1051, 5, 1), CacheLookup::Miss { epoch_id: 5 }));
    assert!(matches!(cache.get_at("k", 1000, 6, 2), CacheLookup::Wait { epoch_id: 5 }));
}

#[test]
fn value_without_ttl_never_expires() {
    let mut cache = LegacyCache::new();
    cache.set("k", vec![1], None, 0);
    assert_eq!(hit(cache.get_at("k", u64::MAX, 1, 1)), vec![1]);
}

#[test]
fn expiry_beyond_the_clock_saturates() {
    let mut cache = LegacyCache::new();
    cache.set("k", vec![1], Some(u64::MAX), 10);
    assert_eq!(hit(cache.get_at("k", u64::MAX, 1, 1)), vec![1]);
}

#[test]
fn zero_ttl_expires_after_the_instant_of_set() {
    let mut cache = LegacyCache::new();
    cache.set("k", vec![1], Some(0), 10);
    assert_eq!(hit(cache.get_at("k", 10, 1, 1)), vec![1]);
    assert!(matches!(cache.get_at("k", 11, 1, 1), CacheLookup::Miss { .. }));
}

#[test]
fn timed_out_waiter_removes_its_wait_list() {
    let mut cache = LegacyCache::new();
    assert!(matches!(cache.get_at("k", 0, 7, 1), CacheLookup::Miss { epoch_id: 7 }));
    assert!(matches!(cache.get_at("k", 0, 8, 2), CacheLookup::Wait { epoch_id: 7 }));
    assert!(cache.abandon("k", 7));
    assert!(!cache.abandon("k", 7));
    assert!(matches!(cache.get_at("k", 0, 9, 3), CacheLookup::Miss { epoch_id: 9 }));
}

#[test]
fn late_cleanup_does_not_remove_a_newer_wait_list() {
    let mut cache = LegacyCache::new();
    assert!(matches!(cache.get_at("k", 0, 7, 1), CacheLookup::Miss { epoch_id: 7 }));
    assert!(cache.abandon("k", 7));
    assert!(matches!(cache.get_at("k", 0, 8, 2), CacheLookup::Miss { epoch_id: 8 }));
    assert!(!cache.abandon("k", 7));
    assert!(matches!(cache.get_at("k", 0, 9, 3), CacheLookup::Wait { epoch_id: 8 }));
}

#[test]
fn defunct_wait_list_is_replaced_on_next_access() {
    let mut cache = LegacyCache::new();
    assert!(matches!(cache.get_at("k", 0, 7, 1), CacheLookup::Miss { epoch_id: 7 }));
    assert!(matches!(cache.get_at("k", 0, 8, 2), CacheLookup::Wait { epoch_id: 7 }));
    cache.creator_dropped("k", 7);
    assert!(matches!(cache.get_at("k", 0, 9, 3), CacheLookup::Miss { epoch_id: 9 }));
    assert!(matches!(cache.get_at("k", 0, 10, 4), CacheLookup::Wait { epoch_id: 9 }));
    assert_eq!(cache.set("k", vec![1], None, 0), vec![4]);
}

#[test]
fn creator_dropped_with_a_stale_epoch_changes_nothing() {
    let mut cache = LegacyCache::new();
    assert!(matches!(cache.get_at("k", 0, 7, 1), CacheLookup::Miss { epoch_id: 7 }));
    cache.creator_dropped("k", 6);
    assert!(matches!(cache.get_at("k", 0, 8, 2), CacheLookup::Wait { epoch_id: 7 }));
}

#[test]
fn get_draws_its_own_epoch() {
    let mut cache = LegacyCache::new();
    let epoch = match cache.get("k", 0, 1) {
        CacheLookup::Miss { epoch_id } => epoch_id,
        _ => panic!("the first lookup must be a miss"),
    };
    assert!(matches!(cache.get("k", 0, 2), CacheLookup::Wait { epoch_id } if epoch_id == epoch));
    assert_eq!(cache.set("k", b"v".to_vec(), None, 0), vec![2]);
    assert_eq!(hit(cache.get("k", 0, 3)), b"v".to_vec());
}

#[test]
fn wait_list_age_is_counted_from_the_timestamp_of_the_epoch() {
    let epoch: u128 = (1_000_000u128 << 80) | 12345;
    assert_eq!(wait_list_age_secs(epoch, 1_000_000), 0);
    assert_eq!(wait_list_age_secs(epoch, 1_000_999), 0);
    assert_eq!(wait_list_age_secs(epoch, 1_001_000), 1);
    assert_eq!(wait_list_age_secs(epoch, 1_061_500), 61);
    assert_eq!(wait_list_age_secs(epoch, 999_999), 0);
    assert_eq!(wait_list_age_secs(12345, 5000), 5);
}

#[test]
fn a_wait_list_is_created_once_and_joined_after_that() {
    let mut cache = LegacyCache::new();
    assert_eq!(cache.get_or_create_wait_list("k", 7, 1), None);
    assert_eq!(cache.get_or_create_wait_list("k", 8, 2), Some(7));
    assert_eq!(cache.get_or_create_wait_list("k", 9, 3), Some(7));
    assert_eq!(cache.get_or_create_wait_list("other", 10, 4), None);
    cache.creator_dropped("k", 7);
    assert_eq!(cache.get_or_create_wait_list("k", 11, 5), None);
    assert_eq!(cache.get_or_create_wait_list("k", 12, 6), Some(11));
    assert_eq!(cache.set("k", vec![1], None, 0), vec![6]);
}
