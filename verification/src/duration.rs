//! Spans of time in whole nanoseconds.

use vstd::prelude::*;
use time::NumericalStdDurationShort;

verus! {

/// Nanoseconds in one second.
pub const NANOS_PER_SEC: u128 = 1_000_000_000;

/// A non-negative span of time, counted in nanoseconds.
#[derive(Clone, Copy, Debug, PartialEq, Eq, Structural)]
pub struct Duration {
    pub nanos: u128,
}

impl View for Duration {
    type V = nat;

    /// The span as a number of nanoseconds.
    open spec fn view(&self) -> nat {
        self.nanos as nat
    }
}

impl Duration {
    /// The span of `secs` whole seconds.
    pub open spec fn spec_from_secs(secs: u64) -> Duration {
        Duration { nanos: (secs * NANOS_PER_SEC) as u128 }
    }

    /// The span of `secs` whole seconds.
    pub fn from_secs(secs: u64) -> (d: Duration)
        ensures
            d == Duration::spec_from_secs(secs),
            d@ == secs * NANOS_PER_SEC,
    {
        let wide: u128 = secs as u128;
        Duration { nanos: wide * NANOS_PER_SEC }
    }

    /// The span divided by `n`, rounded down to a whole nanosecond.
    pub fn div(self, n: u32) -> (d: Duration)
        requires
            n > 0,
        ensures
            d@ == self@ / (n as nat),
    {
        Duration { nanos: self.nanos / (n as u128) }
    }

    /// The longer of two spans.
    pub fn max(self, other: Duration) -> (d: Duration)
        ensures
            d@ == (if self@ >= other@ { self@ } else { other@ }),
            d == self || d == other,
    {
        if self.nanos >= other.nanos {
            self
        } else {
            other
        }
    }
}

/// Calls `seconds` of the `time` crate's `NumericalStdDurationShort` on an
/// unsigned 32-bit count. The crate widens the count to 64 bits and hands it
/// to `std::time::Duration::from_secs`, so the result is claimed to be
/// exactly `n` seconds.
#[verifier::external_body]
pub(crate) fn seconds(n: u32) -> (d: Duration)
    ensures
        d@ == n * NANOS_PER_SEC,
{
    Duration { nanos: n.seconds().as_nanos() }
}

/// Calls `minutes` of the `time` crate's `NumericalStdDurationShort` on an
/// unsigned 32-bit count. The crate multiplies the widened count by 60 and
/// hands it to `std::time::Duration::from_secs`, so the result is claimed to
/// be exactly `n` times sixty seconds.
#[verifier::external_body]
pub(crate) fn minutes(n: u32) -> (d: Duration)
    ensures
        d@ == n * 60 * NANOS_PER_SEC,
{
    Duration { nanos: n.minutes().as_nanos() }
}

/// Calls `hours` of the `time` crate's `NumericalStdDurationShort` on an
/// unsigned 32-bit count. The crate multiplies the widened count by 3600 and
/// hands it to `std::time::Duration::from_secs`, so the result is claimed to
/// be exactly `n` times 3600 seconds.
#[verifier::external_body]
pub(crate) fn hours(n: u32) -> (d: Duration)
    ensures
        d@ == n * 3_600 * NANOS_PER_SEC,
{
    Duration { nanos: n.hours().as_nanos() }
}

} // verus!
