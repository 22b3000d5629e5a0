//! Checked constructors for [`std::time::Duration`].

use std::time::Duration;
use vstd::prelude::*;
use super::{
    duration_new, MICROS_PER_SEC, MILLIS_PER_SEC, NANOS_PER_MICRO, NANOS_PER_MILLI, NANOS_PER_SEC,
};

verus! {

/// What [`checked_new`] returns: `None` where carrying the whole seconds of
/// `nanos` into `secs` overflows, and otherwise the duration of `secs` seconds
/// plus `nanos` nanoseconds, with the nanoseconds below one second.
pub open spec fn new_spec(secs: u64, nanos: u32) -> Option<Duration> {
    let total = secs as int + (nanos / NANOS_PER_SEC) as int;
    if total <= u64::MAX {
        Some(duration_new(total as u64, (nanos % NANOS_PER_SEC) as u32))
    } else {
        None
    }
}

/// The duration of `secs` whole seconds.
pub open spec fn secs_spec(secs: u64) -> Duration {
    duration_new(secs, 0)
}

/// The duration of `millis` milliseconds.
pub open spec fn millis_spec(millis: u64) -> Duration {
    duration_new(
        (millis / MILLIS_PER_SEC) as u64,
        ((millis % MILLIS_PER_SEC) as int * NANOS_PER_MILLI as int) as u32,
    )
}

/// The duration of `micros` microseconds.
pub open spec fn micros_spec(micros: u64) -> Duration {
    duration_new(
        (micros / MICROS_PER_SEC) as u64,
        ((micros % MICROS_PER_SEC) as int * NANOS_PER_MICRO as int) as u32,
    )
}

/// The duration of `nanos` nanoseconds.
pub open spec fn nanos_spec(nanos: u64) -> Duration {
    duration_new(
        (nanos / (NANOS_PER_SEC as u64)) as u64,
        (nanos % (NANOS_PER_SEC as u64)) as u32,
    )
}

/// A checked version of [`Duration::from_secs`]: it never fails.
pub fn checked_from_secs(secs: u64) -> (r: Option<Duration>)
    ensures
        r == Some(secs_spec(secs)),
{
    checked_new(secs, 0)
}

/// A checked version of [`Duration::from_millis`]: it never fails.
pub fn checked_from_millis(millis: u64) -> (r: Option<Duration>)
    ensures
        r == Some(millis_spec(millis)),
{
    let secs: u64 = millis / MILLIS_PER_SEC;
    let rest: u64 = millis % MILLIS_PER_SEC;
    assert((rest as int) * (NANOS_PER_MILLI as int) < (NANOS_PER_SEC as int)) by (nonlinear_arith)
        requires
            rest < MILLIS_PER_SEC,
    ;
    let nanos: u32 = (rest as u32) * NANOS_PER_MILLI;
    checked_new(secs, nanos)
}

/// A checked version of [`Duration::from_micros`]: it never fails.
pub fn checked_from_micros(micros: u64) -> (r: Option<Duration>)
    ensures
        r == Some(micros_spec(micros)),
{
    let secs: u64 = micros / MICROS_PER_SEC;
    let rest: u64 = micros % MICROS_PER_SEC;
    assert((rest as int) * (NANOS_PER_MICRO as int) < (NANOS_PER_SEC as int)) by (nonlinear_arith)
        requires
            rest < MICROS_PER_SEC,
    ;
    let nanos: u32 = (rest as u32) * NANOS_PER_MICRO;
    checked_new(secs, nanos)
}

/// A checked version of [`Duration::from_nanos`]: it never fails.
pub fn checked_from_nanos(nanos: u64) -> (r: Option<Duration>)
    ensures
        r == Some(nanos_spec(nanos)),
{
    let secs: u64 = nanos / (NANOS_PER_SEC as u64);
    let rest: u32 = (nanos % (NANOS_PER_SEC as u64)) as u32;
    checked_new(secs, rest)
}

/// A version of [`Duration::new`] that returns `None` where `Duration::new`
/// would panic, because the whole seconds in `nanos` overflow `secs`, and
/// otherwise what `Duration::new(secs, nanos)` returns.
pub fn checked_new(secs: u64, nanos: u32) -> (r: Option<Duration>)
    ensures
        r == new_spec(secs, nanos),
        r is Some ==> r == Some(duration_new(secs, nanos)),
{
    match secs.checked_add((nanos / NANOS_PER_SEC) as u64) {
        Some(_) => Some(Duration::new(secs, nanos)),
        None => None,
    }
}

} // verus!
