//! The time source of a meter.

use vstd::prelude::*;
use std::time::{Duration, Instant};

verus! {

/// `std::time::Instant`, a reading of a monotonic clock. It is carried
/// from the clock to the subtraction; nothing is claimed of it.
#[verifier::external_type_specification]
#[verifier::external_body]
pub struct ExInstant(std::time::Instant);

/// A source of monotonically non-decreasing instants.
pub trait Clock {
    /// The current instant.
    fn now(&self) -> Instant;
}

/// `instant` is a reading of `clock`: what a call of `clock.now()`
/// returned.
pub open spec fn is_reading<C: Clock>(clock: C, instant: Instant) -> bool {
    call_ensures(C::now, (&clock,), instant)
}

/// The clock of the machine.
pub struct SystemClock;

impl Clock for SystemClock {
    fn now(&self) -> Instant {
        system_now()
    }
}

/// `Instant::now`: the machine's monotonic clock. Nothing is claimed of the
/// instant that it returns.
#[verifier::external_body]
fn system_now() -> (now: Instant)
{
    Instant::now()
}

/// `Instant::saturating_duration_since`: the time from `earlier` to
/// `later`, or no time at all where `earlier` is the later one. Nothing is
/// claimed of its length.
#[verifier::external_body]
pub(crate) fn elapsed_between(later: &Instant, earlier: &Instant) -> (elapsed: Duration)
{
    later.saturating_duration_since(*earlier)
}

/// `Duration::as_secs`: the whole seconds of a span of time.
#[verifier::external_body]
pub(crate) fn whole_secs(elapsed: &Duration) -> (secs: u64)
{
    elapsed.as_secs()
}

/// `Duration::subsec_nanos`: the part of a span of time beyond its whole
/// seconds, in nanoseconds; always less than a second.
#[verifier::external_body]
pub(crate) fn subsec_nanos(elapsed: &Duration) -> (nanos: u32)
    ensures
        nanos < 1_000_000_000,
{
    elapsed.subsec_nanos()
}

} // verus!
