//! Time as the correlator sees it: whole nanoseconds since a clock was
//! started. The readings come from the machine and nothing is proved of them.

use std::time::Duration;
use std::time::Instant;
use vstd::prelude::*;

verus! {

#[verifier::external_type_specification]
#[verifier::external_body]
pub struct ExInstant(std::time::Instant);

/// `Instant::now`: the present moment on the monotonic clock.
#[verifier::external_body]
fn now() -> Instant {
    Instant::now()
}

/// `Instant::elapsed`: the time that has passed since `since`.
#[verifier::external_body]
fn elapsed(since: &Instant) -> Duration {
    since.elapsed()
}

/// `Duration::as_nanos`: the whole nanoseconds in a duration.
#[verifier::external_body]
fn whole_nanos(d: Duration) -> u128 {
    d.as_nanos()
}

/// A clock that counts from the moment it was started.
pub struct Clock {
    origin: Instant,
}

impl Clock {
    /// A clock started now.
    pub fn start() -> Clock {
        Clock { origin: now() }
    }

    /// The nanoseconds since the clock was started, at most `u64::MAX`.
    pub fn reading(&self) -> u64 {
        capped(whole_nanos(elapsed(&self.origin)))
    }
}

/// A count of nanoseconds as a reading: the count itself, or `u64::MAX` where
/// the count is larger than that.
pub open spec fn capped_nanos(nanos: u128) -> u64 {
    if nanos > u64::MAX {
        u64::MAX
    } else {
        nanos as u64
    }
}

/// A count of nanoseconds as a reading: the count itself, or `u64::MAX` where
/// the count is larger than that.
pub fn capped(nanos: u128) -> (r: u64)
    ensures
        r == capped_nanos(nanos),
{
    if nanos > 0xffff_ffff_ffff_ffffu128 {
        u64::MAX
    } else {
        nanos as u64
    }
}

/// The time from `earlier` to `later`, zero where `later` is the earlier one.
pub open spec fn span_between(earlier: u64, later: u64) -> u64 {
    if later >= earlier {
        (later - earlier) as u64
    } else {
        0
    }
}

/// The time from `earlier` to `later`, zero where `later` is the earlier one.
pub fn between(earlier: u64, later: u64) -> (r: u64)
    ensures
        r == span_between(earlier, later),
{
    if later >= earlier {
        later - earlier
    } else {
        0
    }
}

/// Whole milliseconds in a number of nanoseconds.
pub open spec fn whole_millis(nanos: u64) -> i64 {
    (nanos / 1_000_000) as i64
}

/// Whole milliseconds in a number of nanoseconds.
pub fn millis(nanos: u64) -> (r: i64)
    ensures
        r == whole_millis(nanos),
{
    (nanos / 1_000_000) as i64
}

} // verus!
