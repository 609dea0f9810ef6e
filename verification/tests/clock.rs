use mongo_lock::clock::{expires_at, now_and_expires_at};
use mongo_lock::Lock;
use std::time::{Duration, SystemTime, UNIX_EPOCH};

#[test]
fn the_lease_ends_its_length_after_its_start() {
    assert_eq!(expires_at(10, 5), 15);
    assert_eq!(expires_at(1_700_000_000_000, 30_000), 1_700_000_030_000);
    assert_eq!(expires_at(-20, 5), -15);
    assert_eq!(expires_at(-20, 50), 30);
}

#[test]
fn a_lease_of_no_length_ends_at_its_start() {
    assert_eq!(expires_at(0, 0), 0);
    assert_eq!(expires_at(i64::MAX, 0), i64::MAX);
    assert_eq!(expires_at(i64::MIN, 0), i64::MIN);
}

#[test]
fn the_end_of_a_lease_stops_at_the_last_instant() {
    assert_eq!(expires_at(i64::MAX - 5, 5), i64::MAX);
    assert_eq!(expires_at(i64::MAX - 5, 6), i64::MAX);
    assert_eq!(expires_at(i64::MAX - 5, 4), i64::MAX - 1);
    assert_eq!(expires_at(0, u128::MAX), i64::MAX);
    assert_eq!(expires_at(0, u64::MAX as u128), i64::MAX);
    assert_eq!(expires_at(0, u64::MAX as u128 + 1), i64::MAX);
    assert_eq!(expires_at(i64::MIN, u64::MAX as u128), i64::MAX);
    assert_eq!(expires_at(i64::MIN, i64::MAX as u128), -1);
    assert_eq!(expires_at(-1, i64::MAX as u128 + 1), i64::MAX);
    assert_eq!(expires_at(-2, i64::MAX as u128 + 1), i64::MAX - 1);
}

#[test]
fn the_clock_is_read_in_milliseconds_since_the_epoch() {
    let before = SystemTime::now().duration_since(UNIX_EPOCH).unwrap().as_millis() as i64;
    let (now, _) = now_and_expires_at(Duration::from_secs(1));
    let after = SystemTime::now().duration_since(UNIX_EPOCH).unwrap().as_millis() as i64;
    assert!(before <= now && now <= after);
}

#[test]
fn the_lease_counts_whole_milliseconds() {
    let (now, end) = now_and_expires_at(Duration::from_secs(30));
    assert_eq!(end - now, 30_000);
    let (now, end) = now_and_expires_at(Duration::from_micros(2_999));
    assert_eq!(end - now, 2);
    let (now, end) = now_and_expires_at(Duration::ZERO);
    assert_eq!(end, now);
    let (_, end) = now_and_expires_at(Duration::MAX);
    assert_eq!(end, i64::MAX);
}

#[test]
fn an_attempt_asks_for_its_key_and_its_lease() {
    let request = Lock::acquire_request("my-key", Duration::from_secs(30));
    assert_eq!(request.key, "my-key");
    assert_eq!(request.expires_at - request.now, 30_000);
}
