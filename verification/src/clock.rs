//! Time, counted in ticks of the embassy clock.
//!
//! A point in time is the number of ticks since start-up and a span of time is
//! a number of ticks; both are plain `u64` values here. The arithmetic is that
//! of `embassy_time`, built with the `tick-hz-1_000_000` feature.

use vstd::prelude::*;

verus! {

/// Ticks in one second.
pub const TICKS_PER_SECOND: u64 = 1_000_000;

/// Ticks in one millisecond.
pub const TICKS_PER_MILLISECOND: u64 = 1_000;

/// The span of `n` seconds, in ticks.
pub open spec fn secs(n: int) -> int {
    n * TICKS_PER_SECOND
}

/// The span of `n` milliseconds, in ticks.
pub open spec fn millis(n: int) -> int {
    n * TICKS_PER_MILLISECOND
}

/// `embassy_time::Duration::from_secs`: a span of whole seconds has exactly
/// `TICKS_PER_SECOND` ticks for each of them. Spans whose tick count does not
/// fit in a `u64` are left out, since the multiplication would overflow.
#[verifier::external_body]
pub(crate) fn from_secs(n: u64) -> (ticks: u64)
    requires
        secs(n as int) <= u64::MAX,
    ensures
        ticks == secs(n as int),
{
    embassy_time::Duration::from_secs(n).as_ticks()
}

/// `embassy_time::Duration::from_millis`: a span of whole milliseconds has
/// exactly `TICKS_PER_MILLISECOND` ticks for each of them. Spans whose tick
/// count does not fit in a `u64` are left out, since the multiplication would
/// overflow.
#[verifier::external_body]
pub(crate) fn from_millis(n: u64) -> (ticks: u64)
    requires
        millis(n as int) <= u64::MAX,
    ensures
        ticks == millis(n as int),
{
    embassy_time::Duration::from_millis(n).as_ticks()
}

/// `embassy_time::Duration::as_secs`: the whole seconds in a span, rounded
/// down.
#[verifier::external_body]
pub(crate) fn as_secs(ticks: u64) -> (n: u64)
    ensures
        n == ticks / TICKS_PER_SECOND,
{
    embassy_time::Duration::from_ticks(ticks).as_secs()
}

/// `embassy_time::Instant::duration_since`: the ticks from `earlier` to `now`.
/// An `earlier` that lies after `now` is left out, since the call panics on it.
#[verifier::external_body]
pub(crate) fn duration_since(now: u64, earlier: u64) -> (ticks: u64)
    requires
        earlier <= now,
    ensures
        ticks == now - earlier,
{
    let start = embassy_time::Instant::from_ticks(earlier);
    embassy_time::Instant::from_ticks(now).duration_since(start).as_ticks()
}

} // verus!
