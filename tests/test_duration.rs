use std::time::Duration;

use std_ext::time::extfn::{
    checked_from_micros, checked_from_millis, checked_from_nanos, checked_from_secs, checked_new,
};
use std_ext::time::DurationNumExt;

#[test]
fn test_duration_infallable() {
    let d = 10u8.seconds();
    assert_eq!(d, Duration::from_secs(10));
}

#[test]
fn infallible_units() {
    assert_eq!(10u16.milliseconds(), Duration::from_millis(10));
    assert_eq!(10u32.microseconds(), Duration::from_micros(10));
    assert_eq!(10u64.nanoseconds(), Duration::from_nanos(10));
    assert_eq!(10u128.minutes(), Duration::from_secs(600));
    assert_eq!(10i32.hours(), Duration::from_secs(36_000));
    assert_eq!(10i64.days(), Duration::from_secs(864_000));
    assert_eq!(2_569i16.milliseconds(), Duration::new(2, 569_000_000));
}

#[test]
fn checked_constructors() {
    assert_eq!(checked_from_secs(10), Some(Duration::from_secs(10)));
    assert_eq!(checked_from_millis(2_569), Some(Duration::new(2, 569_000_000)));
    assert_eq!(checked_from_micros(1_000_001), Some(Duration::new(1, 1_000)));
    assert_eq!(checked_from_nanos(3_000_000_007), Some(Duration::new(3, 7)));
    assert_eq!(checked_from_millis(u64::MAX), Some(Duration::from_millis(u64::MAX)));
    assert_eq!(checked_from_nanos(u64::MAX), Some(Duration::from_nanos(u64::MAX)));
}

#[test]
fn checked_new_carries_and_overflows() {
    assert_eq!(checked_new(1, 2_500_000_000), Some(Duration::new(3, 500_000_000)));
    assert_eq!(checked_new(u64::MAX, 999_999_999), Some(Duration::new(u64::MAX, 999_999_999)));
    assert_eq!(checked_new(u64::MAX, 1_000_000_000), None);
    assert_eq!(checked_new(u64::MAX - 3, u32::MAX), None);
    assert_eq!(checked_new(u64::MAX - 4, u32::MAX), Some(Duration::new(u64::MAX, 294_967_295)));
}
