//! Readings of the monotonic clock.
//!
//! Points in time are `Instant`s, which carry no number that a program could
//! look at. What the switcher decides on are *ages*: how many nanoseconds have
//! gone by since such a point. The switcher's own timer runs by tokio's clock,
//! like its sleep between two passes; all else is dated by the standard
//! library's.
use std::time::{Duration, Instant};
use vstd::prelude::*;

verus! {

/// The standard library's `Instant`, carried through as an opaque value.
#[verifier::external_type_specification]
#[verifier::external_body]
pub struct ExInstant(std::time::Instant);

/// tokio's `Instant`, carried through as an opaque value.
#[verifier::external_type_specification]
#[verifier::external_body]
pub struct ExTimerInstant(tokio::time::Instant);

/// Nanoseconds in one second.
pub const NANOS_PER_SEC: u128 = 1_000_000_000;

/// `secs` seconds, in nanoseconds.
pub open spec fn secs_in_nanos(secs: int) -> int {
    secs * NANOS_PER_SEC
}

/// Converts whole seconds to nanoseconds.
pub fn nanos_from_secs(secs: u64) -> (r: u128)
    ensures
        r == secs_in_nanos(secs as int),
{
    (secs as u128) * NANOS_PER_SEC
}

/// `Instant::now` reads the clock. Which point in time comes back is up to the
/// clock, so nothing is claimed of it.
pub assume_specification[ std::time::Instant::now ]() -> (r: std::time::Instant);

/// `Instant::elapsed` tells how much time has gone by since a point in time. How
/// much that is, is up to the clock, so nothing is claimed of it.
pub assume_specification[ std::time::Instant::elapsed ](at: &std::time::Instant) -> (r:
    std::time::Duration);

/// tokio's `Instant::now` reads tokio's clock. Which point in time comes back is
/// up to the clock, so nothing is claimed of it.
pub assume_specification[ tokio::time::Instant::now ]() -> (r: tokio::time::Instant);

/// tokio's `Instant::elapsed` tells how much time has gone by since a point in
/// time. How much that is, is up to the clock, so nothing is claimed of it.
pub assume_specification[ tokio::time::Instant::elapsed ](at: &tokio::time::Instant) -> (r:
    std::time::Duration);

/// `Duration::as_nanos` counts a length of time in nanoseconds. The claim is
/// the longest `Duration` there is: `u64::MAX` seconds and just under one second
/// more. The `Duration` itself is opaque, so which number belongs to which is
/// left unsaid.
pub assume_specification[ std::time::Duration::as_nanos ](duration: &std::time::Duration) -> (r:
    u128)
    ensures
        r < secs_in_nanos(u64::MAX + 1),
;

/// Whether `at` is a reading of the clock: a call of `Instant::now` gave it. When
/// that call was made is not part of it.
pub open spec fn is_reading(at: Instant) -> bool {
    call_ensures(Instant::now, (), at)
}

/// Whether the clock may put the age of `at` at `nanos` nanoseconds: a call of
/// `Instant::elapsed` on this very point in time gave that length of time.
pub open spec fn is_age_of(nanos: u128, at: Instant) -> bool {
    exists|elapsed: Duration| #[trigger]
        call_ensures(Instant::elapsed, (&at,), elapsed) && call_ensures(
            Duration::as_nanos,
            (&elapsed,),
            nanos,
        )
}

/// Whether `at` is a reading of tokio's clock: a call of tokio's `Instant::now`
/// gave it. When that call was made is not part of it.
pub open spec fn is_timer_reading(at: tokio::time::Instant) -> bool {
    call_ensures(tokio::time::Instant::now, (), at)
}

/// Whether tokio's clock may put the age of `at` at `nanos` nanoseconds: a call
/// of tokio's `Instant::elapsed` on this very point in time gave that length of
/// time.
pub open spec fn is_timer_age_of(nanos: u128, at: tokio::time::Instant) -> bool {
    exists|elapsed: Duration| #[trigger]
        call_ensures(tokio::time::Instant::elapsed, (&at,), elapsed) && call_ensures(
            Duration::as_nanos,
            (&elapsed,),
            nanos,
        )
}

/// Reads the clock.
pub(crate) fn clock_now() -> (r: Instant)
    ensures
        is_reading(r),
{
    Instant::now()
}

/// How many nanoseconds have gone by since `at`, by the clock.
pub(crate) fn age_in_nanos(at: &Instant) -> (r: u128)
    ensures
        is_age_of(r, *at),
        r < secs_in_nanos(u64::MAX + 1),
{
    at.elapsed().as_nanos()
}

/// Reads tokio's clock.
pub(crate) fn timer_now() -> (r: tokio::time::Instant)
    ensures
        is_timer_reading(r),
{
    tokio::time::Instant::now()
}

/// How many nanoseconds have gone by since `at`, by tokio's clock.
pub(crate) fn timer_age_in_nanos(at: &tokio::time::Instant) -> (r: u128)
    ensures
        is_timer_age_of(r, *at),
        r < secs_in_nanos(u64::MAX + 1),
{
    at.elapsed().as_nanos()
}

} // verus!
