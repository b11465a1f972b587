use check_sql_utils::{age_from, get_modified_age, get_modified_utc_time, get_utc_now, UtilError};
use std::time::{Duration, SystemTime};

#[test]
fn test_get_utc_modified_time() {
    let e = get_modified_utc_time(&SystemTime::now()).unwrap();
    assert!(e > 1700000000);
}

#[test]
fn age_is_the_difference() {
    assert_eq!(age_from(100, 160), 60);
    assert_eq!(age_from(1700000000, 1700000042), 42);
}

#[test]
fn age_of_equal_times_is_zero() {
    assert_eq!(age_from(1700000000, 1700000000), 0);
}

#[test]
fn age_of_future_modification_is_zero() {
    assert_eq!(age_from(200, 100), 0);
    assert_eq!(age_from(u64::MAX, 0), 0);
}

#[test]
fn age_spans_the_whole_range() {
    assert_eq!(age_from(0, u64::MAX), u64::MAX);
}

#[test]
fn modified_time_counts_whole_seconds() {
    let t = SystemTime::UNIX_EPOCH + Duration::from_millis(1_700_000_000_900);
    assert_eq!(get_modified_utc_time(&t), Ok(1700000000));
    assert_eq!(get_modified_utc_time(&SystemTime::UNIX_EPOCH), Ok(0));
}

#[test]
fn modified_time_before_epoch_fails() {
    let t = SystemTime::UNIX_EPOCH.checked_sub(Duration::from_secs(10)).unwrap();
    assert_eq!(get_modified_utc_time(&t), Err(UtilError::ModifiedBeforeEpoch));
    assert_eq!(get_modified_age(&t), Err(UtilError::ModifiedBeforeEpoch));
}

#[test]
fn clock_reads_after_the_epoch() {
    assert!(get_utc_now().unwrap() > 1700000000);
}

#[test]
fn successive_clock_reads_do_not_go_back() {
    let first = get_utc_now().unwrap();
    let second = get_utc_now().unwrap();
    assert!(second >= first);
}

#[test]
fn fresh_modification_has_small_age() {
    let age = get_modified_age(&SystemTime::now()).unwrap();
    assert!(age < 5);
}

#[test]
fn future_modification_has_age_zero() {
    let t = SystemTime::now() + Duration::from_secs(3600);
    assert_eq!(get_modified_age(&t), Ok(0));
}

#[test]
fn old_modification_has_its_age() {
    let now = get_utc_now().unwrap();
    let t = SystemTime::now().checked_sub(Duration::from_secs(600)).unwrap();
    let age = get_modified_age(&t).unwrap();
    let later = get_utc_now().unwrap();
    assert!(age >= 599 && age <= 600 + (later - now) + 1);
}
