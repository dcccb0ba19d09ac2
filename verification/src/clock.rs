//! The monotonic clock.

use vstd::prelude::*;

use std::time::{Duration, Instant};

verus! {

/// A reading of the monotonic clock, opaque here.
#[verifier::external_type_specification]
#[verifier::external_body]
pub struct ExInstant(std::time::Instant);

/// The whole number of nanoseconds in a duration.
pub uninterp spec fn duration_nanos(duration: Duration) -> u128;

/// `Instant::now` reads the clock. Nothing is claimed of the reading.
pub assume_specification[ std::time::Instant::now ]() -> (now: Instant);

/// `Instant::elapsed` returns the time that has passed since the reading. It
/// depends on when it is called, so nothing is claimed of it.
pub assume_specification[ std::time::Instant::elapsed ](instant: &Instant) -> (elapsed: Duration);

/// `Duration::as_nanos` returns the nanoseconds that the duration holds.
pub assume_specification[ std::time::Duration::as_nanos ](duration: &Duration) -> (nanos: u128)
    ensures
        nanos == duration_nanos(*duration),
;

/// A clock that counts nanoseconds from the moment it was started.
pub struct Clock {
    start_time: Instant,
}

/// `now` is a number of nanoseconds that `Instant::elapsed` may give for a clock
/// started with `start`.
pub open spec fn reads(start: Instant, now: u128) -> bool {
    exists|elapsed: Duration| #[trigger]
        call_ensures(Instant::elapsed, (&start,), elapsed) && now == duration_nanos(elapsed)
}

impl Clock {
    /// The reading that the clock was started with.
    pub closed spec fn started(self) -> Instant {
        self.start_time
    }

    /// Starts a clock with a reading that `Instant::now` gives. Which moment that
    /// is, is not said.
    pub fn start() -> (clock: Clock)
        ensures
            call_ensures(Instant::now, (), clock.started()),
    {
        Clock { start_time: Instant::now() }
    }

    /// The nanoseconds since the clock was started, as `Instant::elapsed` gives
    /// them for the reading that it was started with. Whatever is decided from
    /// them is decided by functions that take them as an argument.
    pub fn nanos(&self) -> (now: u128)
        ensures
            reads(self.started(), now),
            exists|elapsed: Duration| #[trigger]
                call_ensures(Instant::elapsed, (&self.started(),), elapsed) && now
                    == duration_nanos(elapsed),
    {
        let elapsed = self.start_time.elapsed();
        elapsed.as_nanos()
    }
}

/// The nanoseconds from `earlier` to `now`; zero when `earlier` is the later of
/// the two.
pub open spec fn spec_nanos_between(earlier: u128, now: u128) -> int {
    if now < earlier {
        0
    } else {
        now - earlier
    }
}

/// Computes the nanoseconds between two readings.
pub fn nanos_between(earlier: u128, now: u128) -> (nanos: u128)
    ensures
        earlier <= now ==> earlier + nanos == now,
        now < earlier ==> nanos == 0,
        nanos == spec_nanos_between(earlier, now),
{
    if now < earlier {
        0
    } else {
        now - earlier
    }
}

/// A reading of a clock is the whole number of nanoseconds of a time that has
/// passed since the clock was started.
pub proof fn law_readings_are_elapsed_times(start: Instant, now: u128)
    requires
        reads(start, now),
    ensures
        exists|elapsed: Duration| #[trigger]
            call_ensures(Instant::elapsed, (&start,), elapsed) && duration_nanos(elapsed) == now,
{
}

/// The time between two readings is what has to be added to the earlier one to get
/// the later one; so the times between three readings in a row add up, and no time
/// passes backwards.
pub proof fn law_elapsed_time_adds_up(first: u128, second: u128, third: u128)
    ensures
        first <= second ==> first + spec_nanos_between(first, second) == second,
        second <= first ==> spec_nanos_between(first, second) == 0,
        first <= second <= third ==> spec_nanos_between(first, second) + spec_nanos_between(
            second,
            third,
        ) == spec_nanos_between(first, third),
{
}

} // verus!
