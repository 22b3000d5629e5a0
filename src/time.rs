//! Constructing [`std::time::Duration`] from numbers.

use std::time::Duration;
use vstd::prelude::*;

pub mod extfn;
mod big;

use extfn::{
    checked_from_micros, checked_from_millis, checked_from_nanos, checked_from_secs, micros_spec,
    millis_spec, nanos_spec, secs_spec,
};

verus! {

pub const SECS_PER_MINUTE: u64 = 60;
pub const SECS_PER_HOUR: u64 = 3600;
pub const SECS_PER_DAY: u64 = 86400;

pub const NANOS_PER_SEC: u32 = 1_000_000_000;
pub const NANOS_PER_MILLI: u32 = 1_000_000;
pub const NANOS_PER_MICRO: u32 = 1_000;
pub const MILLIS_PER_SEC: u64 = 1_000;
pub const MICROS_PER_SEC: u64 = 1_000_000;

/// The duration that `Duration::new(secs, nanos)` returns.
pub uninterp spec fn duration_new(secs: u64, nanos: u32) -> Duration;

/// Relies on `Duration::new`: it carries the whole seconds of `nanos` into
/// `secs`, so that the result is the one made of `secs` plus those seconds
/// and the nanoseconds below one second; it panics where that carry
/// overflows.
pub assume_specification[ Duration::new ](secs: u64, nanos: u32) -> (r: Duration)
    requires
        secs as int + (nanos / NANOS_PER_SEC) as int <= u64::MAX,
    ensures
        r == duration_new(secs, nanos),
        r == duration_new((secs + nanos / NANOS_PER_SEC) as u64, nanos % NANOS_PER_SEC),
;

/// Relies on `Duration::from_secs`: the duration of `secs` whole seconds.
pub assume_specification[ Duration::from_secs ](secs: u64) -> (r: Duration)
    ensures
        r == secs_spec(secs),
;

/// Relies on `Duration::from_millis`: the duration of `millis` milliseconds.
pub assume_specification[ Duration::from_millis ](millis: u64) -> (r: Duration)
    ensures
        r == millis_spec(millis),
;

/// Relies on `Duration::from_micros`: the duration of `micros` microseconds.
pub assume_specification[ Duration::from_micros ](micros: u64) -> (r: Duration)
    ensures
        r == micros_spec(micros),
;

/// Relies on `Duration::from_nanos`: the duration of `nanos` nanoseconds.
pub assume_specification[ Duration::from_nanos ](nanos: u64) -> (r: Duration)
    ensures
        r == nanos_spec(nanos),
;

/// `v` as a `u64`, where it lies in `u64`'s range.
pub open spec fn int_whole_u64(v: int) -> Option<u64> {
    if 0 <= v <= u64::MAX {
        Some(v as u64)
    } else {
        None
    }
}

/// `f` applied to the whole number `w`, where there is one.
pub open spec fn map_whole(w: Option<u64>, f: spec_fn(u64) -> Duration) -> Option<Duration> {
    match w {
        Some(x) => Some(f(x)),
        None => None,
    }
}

/// The duration of `w * per` whole seconds, where `w` is a whole number and
/// the product fits in `u64`.
pub open spec fn scaled_secs_spec(w: Option<u64>, per: u64) -> Option<Duration> {
    match w {
        Some(x) => if x * per <= u64::MAX {
            Some(secs_spec((x * per) as u64))
        } else {
            None
        },
        None => None,
    }
}

fn scaled_secs(w: Option<u64>, per: u64) -> (r: Option<Duration>)
    ensures
        r == scaled_secs_spec(w, per),
{
    match w {
        Some(x) => match x.checked_mul(per) {
            Some(secs) => checked_from_secs(secs),
            None => None,
        },
        None => None,
    }
}

/// A number that stands for a length of time in some unit.
pub trait DurationNum {
    /// The number as a `u64`: `None` where it is negative or too large.
    spec fn whole_u64(&self) -> Option<u64>;

    /// The number as a `u64`: `None` where it is negative or too large.
    fn to_whole_u64(&self) -> (r: Option<u64>)
        ensures
            r == self.whole_u64(),
    ;
}

/// Extension methods for constructing [`std::time::Duration`] with numbers,
/// which return `None` for a number that is negative or too large.
pub trait DurationNumExtFallible: DurationNum {
    /// The duration of `self` seconds.
    fn seconds(&self) -> (r: Option<Duration>)
        ensures
            r == map_whole(self.whole_u64(), |w: u64| secs_spec(w)),
    {
        match self.to_whole_u64() {
            Some(w) => checked_from_secs(w),
            None => None,
        }
    }

    /// The duration of `self` milliseconds.
    fn milliseconds(&self) -> (r: Option<Duration>)
        ensures
            r == map_whole(self.whole_u64(), |w: u64| millis_spec(w)),
    {
        match self.to_whole_u64() {
            Some(w) => checked_from_millis(w),
            None => None,
        }
    }

    /// The duration of `self` microseconds.
    fn microseconds(&self) -> (r: Option<Duration>)
        ensures
            r == map_whole(self.whole_u64(), |w: u64| micros_spec(w)),
    {
        match self.to_whole_u64() {
            Some(w) => checked_from_micros(w),
            None => None,
        }
    }

    /// The duration of `self` nanoseconds.
    fn nanoseconds(&self) -> (r: Option<Duration>)
        ensures
            r == map_whole(self.whole_u64(), |w: u64| nanos_spec(w)),
    {
        match self.to_whole_u64() {
            Some(w) => checked_from_nanos(w),
            None => None,
        }
    }

    /// The duration of `self` minutes.
    fn minutes(&self) -> (r: Option<Duration>)
        ensures
            r == scaled_secs_spec(self.whole_u64(), SECS_PER_MINUTE),
    {
        scaled_secs(self.to_whole_u64(), SECS_PER_MINUTE)
    }

    /// The duration of `self` hours.
    fn hours(&self) -> (r: Option<Duration>)
        ensures
            r == scaled_secs_spec(self.whole_u64(), SECS_PER_HOUR),
    {
        scaled_secs(self.to_whole_u64(), SECS_PER_HOUR)
    }

    /// The duration of `self` days.
    fn days(&self) -> (r: Option<Duration>)
        ensures
            r == scaled_secs_spec(self.whole_u64(), SECS_PER_DAY),
    {
        scaled_secs(self.to_whole_u64(), SECS_PER_DAY)
    }
}

/// Extension methods for constructing [`std::time::Duration`] with numbers,
/// for numbers that are known to be whole and in range.
///
/// For extension methods on a `Duration` itself, see [`DurationExt`].
pub trait DurationNumExt: DurationNum {
    /// The duration of `self` seconds.
    fn seconds(&self) -> (r: Duration)
        requires
            self.whole_u64().is_some(),
        ensures
            r == secs_spec(self.whole_u64().unwrap()),
    {
        checked_from_secs(self.to_whole_u64().unwrap()).unwrap()
    }

    /// The duration of `self` milliseconds.
    fn milliseconds(&self) -> (r: Duration)
        requires
            self.whole_u64().is_some(),
        ensures
            r == millis_spec(self.whole_u64().unwrap()),
    {
        checked_from_millis(self.to_whole_u64().unwrap()).unwrap()
    }

    /// The duration of `self` microseconds.
    fn microseconds(&self) -> (r: Duration)
        requires
            self.whole_u64().is_some(),
        ensures
            r == micros_spec(self.whole_u64().unwrap()),
    {
        checked_from_micros(self.to_whole_u64().unwrap()).unwrap()
    }

    /// The duration of `self` nanoseconds.
    fn nanoseconds(&self) -> (r: Duration)
        requires
            self.whole_u64().is_some(),
        ensures
            r == nanos_spec(self.whole_u64().unwrap()),
    {
        checked_from_nanos(self.to_whole_u64().unwrap()).unwrap()
    }

    /// The duration of `self` minutes.
    fn minutes(&self) -> (r: Duration)
        requires
            scaled_secs_spec(self.whole_u64(), SECS_PER_MINUTE).is_some(),
        ensures
            Some(r) == scaled_secs_spec(self.whole_u64(), SECS_PER_MINUTE),
    {
        scaled_secs(self.to_whole_u64(), SECS_PER_MINUTE).unwrap()
    }

    /// The duration of `self` hours.
    fn hours(&self) -> (r: Duration)
        requires
            scaled_secs_spec(self.whole_u64(), SECS_PER_HOUR).is_some(),
        ensures
            Some(r) == scaled_secs_spec(self.whole_u64(), SECS_PER_HOUR),
    {
        scaled_secs(self.to_whole_u64(), SECS_PER_HOUR).unwrap()
    }

    /// The duration of `self` days.
    fn days(&self) -> (r: Duration)
        requires
            scaled_secs_spec(self.whole_u64(), SECS_PER_DAY).is_some(),
        ensures
            Some(r) == scaled_secs_spec(self.whole_u64(), SECS_PER_DAY),
    {
        scaled_secs(self.to_whole_u64(), SECS_PER_DAY).unwrap()
    }
}

/// Extension methods for [`std::time::Duration`].
pub trait DurationExt {
}


impl DurationNum for u8 {
    open spec fn whole_u64(&self) -> Option<u64> {
        int_whole_u64(*self as int)
    }

    fn to_whole_u64(&self) -> (r: Option<u64>) {
        Some(*self as u64)
    }
}

impl DurationNumExtFallible for u8 {
}

impl DurationNumExt for u8 {
    fn seconds(&self) -> (r: Duration) {
        Duration::from_secs(*self as u64)
    }

    fn milliseconds(&self) -> (r: Duration) {
        Duration::from_millis(*self as u64)
    }

    fn microseconds(&self) -> (r: Duration) {
        Duration::from_micros(*self as u64)
    }

    fn nanoseconds(&self) -> (r: Duration) {
        Duration::from_nanos(*self as u64)
    }
}

impl DurationNum for u16 {
    open spec fn whole_u64(&self) -> Option<u64> {
        int_whole_u64(*self as int)
    }

    fn to_whole_u64(&self) -> (r: Option<u64>) {
        Some(*self as u64)
    }
}

impl DurationNumExtFallible for u16 {
}

impl DurationNumExt for u16 {
    fn seconds(&self) -> (r: Duration) {
        Duration::from_secs(*self as u64)
    }

    fn milliseconds(&self) -> (r: Duration) {
        Duration::from_millis(*self as u64)
    }

    fn microseconds(&self) -> (r: Duration) {
        Duration::from_micros(*self as u64)
    }

    fn nanoseconds(&self) -> (r: Duration) {
        Duration::from_nanos(*self as u64)
    }
}

impl DurationNum for u32 {
    open spec fn whole_u64(&self) -> Option<u64> {
        int_whole_u64(*self as int)
    }

    fn to_whole_u64(&self) -> (r: Option<u64>) {
        Some(*self as u64)
    }
}

impl DurationNumExtFallible for u32 {
}

impl DurationNumExt for u32 {
    fn seconds(&self) -> (r: Duration) {
        Duration::from_secs(*self as u64)
    }

    fn milliseconds(&self) -> (r: Duration) {
        Duration::from_millis(*self as u64)
    }

    fn microseconds(&self) -> (r: Duration) {
        Duration::from_micros(*self as u64)
    }

    fn nanoseconds(&self) -> (r: Duration) {
        Duration::from_nanos(*self as u64)
    }
}

impl DurationNum for u64 {
    open spec fn whole_u64(&self) -> Option<u64> {
        int_whole_u64(*self as int)
    }

    fn to_whole_u64(&self) -> (r: Option<u64>) {
        Some(*self as u64)
    }
}

impl DurationNumExtFallible for u64 {
}

impl DurationNumExt for u64 {
    fn seconds(&self) -> (r: Duration) {
        Duration::from_secs(*self as u64)
    }

    fn milliseconds(&self) -> (r: Duration) {
        Duration::from_millis(*self as u64)
    }

    fn microseconds(&self) -> (r: Duration) {
        Duration::from_micros(*self as u64)
    }

    fn nanoseconds(&self) -> (r: Duration) {
        Duration::from_nanos(*self as u64)
    }
}

impl DurationNum for i8 {
    open spec fn whole_u64(&self) -> Option<u64> {
        int_whole_u64(*self as int)
    }

    fn to_whole_u64(&self) -> (r: Option<u64>) {
        if *self >= 0 {
            Some(*self as u64)
        } else {
            None
        }
    }
}

impl DurationNumExtFallible for i8 {
}

impl DurationNumExt for i8 {
}

impl DurationNum for i16 {
    open spec fn whole_u64(&self) -> Option<u64> {
        int_whole_u64(*self as int)
    }

    fn to_whole_u64(&self) -> (r: Option<u64>) {
        if *self >= 0 {
            Some(*self as u64)
        } else {
            None
        }
    }
}

impl DurationNumExtFallible for i16 {
}

impl DurationNumExt for i16 {
}

impl DurationNum for i32 {
    open spec fn whole_u64(&self) -> Option<u64> {
        int_whole_u64(*self as int)
    }

    fn to_whole_u64(&self) -> (r: Option<u64>) {
        if *self >= 0 {
            Some(*self as u64)
        } else {
            None
        }
    }
}

impl DurationNumExtFallible for i32 {
}

impl DurationNumExt for i32 {
}

impl DurationNum for i64 {
    open spec fn whole_u64(&self) -> Option<u64> {
        int_whole_u64(*self as int)
    }

    fn to_whole_u64(&self) -> (r: Option<u64>) {
        if *self >= 0 {
            Some(*self as u64)
        } else {
            None
        }
    }
}

impl DurationNumExtFallible for i64 {
}

impl DurationNumExt for i64 {
}

impl DurationNum for i128 {
    open spec fn whole_u64(&self) -> Option<u64> {
        int_whole_u64(*self as int)
    }

    fn to_whole_u64(&self) -> (r: Option<u64>) {
        if *self >= 0 && *self <= u64::MAX as i128 {
            Some(*self as u64)
        } else {
            None
        }
    }
}

impl DurationNumExtFallible for i128 {
}

impl DurationNumExt for i128 {
}

impl DurationNum for u128 {
    open spec fn whole_u64(&self) -> Option<u64> {
        int_whole_u64(*self as int)
    }

    fn to_whole_u64(&self) -> (r: Option<u64>) {
        if *self <= u64::MAX as u128 {
            Some(*self as u64)
        } else {
            None
        }
    }
}

impl DurationNumExtFallible for u128 {
}

impl DurationNumExt for u128 {
}

} // verus!
