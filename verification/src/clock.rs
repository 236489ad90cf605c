//! The process's monotonic clock, as a source of nanosecond timestamps.
//!
//! The host's clock is read through `std::time::Instant`. Nothing is assumed
//! of what it returns: the adapter itself never hands out a timestamp
//! smaller than one it handed out before, so the timers built on it can rely
//! on time not running backwards.
use vstd::prelude::*;

verus! {

/// `std::time::Instant`, carried through as an opaque value.
#[verifier::external_type_specification]
#[verifier::external_body]
pub struct ExInstant(std::time::Instant);

/// `std::time::Instant::now`: the current reading of the host's clock.
/// Nothing is claimed of it.
pub assume_specification[ std::time::Instant::now ]() -> std::time::Instant;

/// `std::time::Instant::elapsed`: the time since `origin` was taken.
/// Nothing is claimed of it.
pub assume_specification[ std::time::Instant::elapsed ](
    origin: &std::time::Instant,
) -> core::time::Duration;

/// `core::time::Duration::as_nanos`: the duration in whole nanoseconds.
/// Nothing is claimed of it.
pub assume_specification[ core::time::Duration::as_nanos ](
    span: &core::time::Duration,
) -> u128;

/// The later of a raw clock reading and the latest timestamp handed out,
/// capped at the largest 64-bit count.
pub open spec fn clamp_reading(latest_ns: nat, raw_ns: nat) -> nat {
    if raw_ns <= latest_ns {
        latest_ns
    } else if raw_ns > u64::MAX {
        u64::MAX as nat
    } else {
        raw_ns
    }
}

/// Brings a raw clock reading in line with the timestamps handed out so far:
/// a reading that lies before `latest_ns` is replaced by `latest_ns`, and one
/// that does not fit in 64 bits by the largest 64-bit count.
pub fn clamp_to_monotonic(latest_ns: u64, raw_ns: u128) -> (now_ns: u64)
    ensures
        now_ns == clamp_reading(latest_ns as nat, raw_ns as nat),
        now_ns >= latest_ns,
{
    if raw_ns <= latest_ns as u128 {
        latest_ns
    } else if raw_ns > u64::MAX as u128 {
        u64::MAX
    } else {
        raw_ns as u64
    }
}

/// A monotonic clock counting nanoseconds since it was built.
pub struct MonotonicClock {
    origin: std::time::Instant,
    latest_ns: u64,
}

impl MonotonicClock {
    /// The latest timestamp this clock has handed out through
    /// [`MonotonicClock::now_ns`].
    pub closed spec fn latest_ns(&self) -> nat {
        self.latest_ns as nat
    }

    /// The moment from which the clock counts. It is fixed when the clock
    /// is built.
    pub closed spec fn origin(&self) -> std::time::Instant {
        self.origin
    }

    /// The latest timestamp handed out, zero if there was none yet.
    pub fn latest(&self) -> (latest_ns: u64)
        ensures
            latest_ns == self.latest_ns(),
    {
        self.latest_ns
    }

    /// A clock whose epoch is the moment of the call.
    pub fn new() -> (clock: Self)
        ensures
            clock.latest_ns() == 0,
    {
        MonotonicClock { origin: std::time::Instant::now(), latest_ns: 0 }
    }

    /// The current time without recording it: never before the latest
    /// timestamp handed out, whatever the host's clock reports.
    pub fn peek_ns(&self) -> (now_ns: u64)
        ensures
            now_ns >= self.latest_ns(),
    {
        let raw_ns: u128 = self.origin.elapsed().as_nanos();
        clamp_to_monotonic(self.latest_ns, raw_ns)
    }

    /// The current time in nanoseconds since the clock was built. Successive
    /// results never decrease, and the moment from which the clock counts
    /// stays where it is.
    pub fn now_ns(&mut self) -> (now_ns: u64)
        ensures
            now_ns >= old(self).latest_ns(),
            final(self).latest_ns() == now_ns,
            final(self).origin() == old(self).origin(),
    {
        let now_ns: u64 = self.peek_ns();
        self.latest_ns = now_ns;
        now_ns
    }
}

} // verus!
