use std::time::Duration;

use num::bigint::Sign;
use num::{BigInt, BigUint};
use std_ext::time::DurationNumExtFallible;

#[test]
fn fallible_in_range() {
    assert_eq!(10u8.seconds(), Some(Duration::from_secs(10)));
    assert_eq!(10u128.milliseconds(), Some(Duration::from_millis(10)));
    assert_eq!(1_500_000i64.microseconds(), Some(Duration::new(1, 500_000_000)));
    assert_eq!(3i8.nanoseconds(), Some(Duration::from_nanos(3)));
    assert_eq!(10u128.minutes(), Some(Duration::from_secs(600)));
    assert_eq!(10u128.hours(), Some(Duration::from_secs(36_000)));
    assert_eq!(10u128.days(), Some(Duration::from_secs(864_000)));
}

#[test]
fn fallible_out_of_range() {
    assert!(u128::MAX.seconds().is_none());
    assert!(u128::MAX.milliseconds().is_none());
    assert!((-1i32).seconds().is_none());
    assert!(i128::MIN.nanoseconds().is_none());
    assert!(u64::MAX.minutes().is_none());
    assert!((u64::MAX / 3600 + 1).hours().is_none());
    assert_eq!((u64::MAX / 3600).hours(), Some(Duration::from_secs(u64::MAX / 3600 * 3600)));
    assert!((u64::MAX / 86400 + 1).days().is_none());
}


#[test]
fn test_duration_fallable() {
    let d = BigInt::new(Sign::Plus, vec![10]).milliseconds();
    assert_eq!(d, Some(Duration::from_millis(10)));

    let d = 10u8.seconds();
    assert_eq!(d, Some(Duration::from_secs(10)));

    let d = u128::MAX.seconds();
    assert!(d.is_none());
}

#[test]
fn fallible_big_integers() {
    assert_eq!(BigUint::new(vec![10]).seconds(), Some(Duration::from_secs(10)));
    assert_eq!(BigInt::new(Sign::Minus, vec![10]).seconds(), None);
    assert_eq!(BigUint::new(vec![0, 0, 1]).seconds(), None);
    assert_eq!(BigUint::new(vec![5]).minutes(), Some(Duration::from_secs(300)));
}
