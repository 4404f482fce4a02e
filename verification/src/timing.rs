//! Conversions between milliseconds, microseconds and timer ticks, made by
//! `embassy_time`.
//!
//! The tick rate of `embassy_time` is fixed when it is built.  This crate
//! builds it at 1 MHz: `embassy-rp`'s `time-driver` feature selects
//! `embassy-time-driver`'s `tick-hz-1_000_000`, which is also the rate taken
//! when no tick-rate feature is selected (and a second tick-rate feature
//! would not build).  So one tick is one microsecond.

use vstd::prelude::*;

verus! {

/// Timer ticks per millisecond at the 1 MHz tick rate.
pub const TICKS_PER_MILLI: u64 = 1000;

/// Calls `embassy_time::Duration::from_millis(ms)` and reads its ticks with
/// `as_ticks`.  At 1 MHz `from_millis` computes `ms * 1000` rounded up by a
/// divisor of 1, so the result is exactly `ms * 1000`; `ms` is bounded so
/// that this product fits in a `u64`.
#[verifier::external_body]
pub(crate) fn ticks_from_millis(ms: u64) -> (ticks: u64)
    requires
        ms * TICKS_PER_MILLI <= u64::MAX,
    ensures
        ticks == ms * TICKS_PER_MILLI,
{
    embassy_time::Duration::from_millis(ms).as_ticks()
}

/// Calls `embassy_time::Duration::from_ticks(ticks)` and converts it with
/// `as_micros`.  At 1 MHz `as_micros` multiplies and divides the ticks by 1,
/// so the result is exactly `ticks` and nothing can overflow.
#[verifier::external_body]
pub(crate) fn micros_from_ticks(ticks: u64) -> (micros: u64)
    ensures
        micros == ticks,
{
    embassy_time::Duration::from_ticks(ticks).as_micros()
}

/// The ticks from `earlier` to `now`, as `Instant::checked_duration_since`
/// gives them: none when `now` lies before `earlier`.
pub fn ticks_since(now: u64, earlier: u64) -> (elapsed: Option<u64>)
    ensures
        now < earlier ==> elapsed is None,
        earlier <= now ==> elapsed == Some((now - earlier) as u64),
{
    now.checked_sub(earlier)
}

} // verus!
