//! The meter: a lock-free path for recording events and a lazily run tick
//! that folds them into the locked aggregate state.

use vstd::prelude::*;
use std::sync::atomic::{AtomicI64, AtomicU64, Ordering};
use std::time::Instant;
use parking_lot::{Mutex, MutexGuard};
use crate::clock::{
    elapsed_between, is_reading, subsec_nanos, whole_secs, Clock, SystemClock,
};
use crate::scalar::{is_from_duration, is_from_i64, is_quotient, is_zero, Scalar};
use crate::schedule::{spec_tick_plan, tick_plan, TickPlan};
use crate::state::{total, State};

verus! {

/// `parking_lot::RawMutex`, the lock inside a `parking_lot::Mutex`. It is
/// only named as a type argument; nothing is claimed of it.
#[verifier::external_type_specification]
#[verifier::external_body]
pub struct ExRawMutex(parking_lot::RawMutex);

/// `lock_api::Mutex`, which `parking_lot::Mutex` is an alias of. What it
/// protects cannot be seen from outside the lock; nothing is claimed of it.
#[verifier::external_type_specification]
#[verifier::external_body]
#[verifier::reject_recursive_types(R)]
#[verifier::reject_recursive_types(T)]
pub struct ExMutex<R, T: ?Sized>(parking_lot::lock_api::Mutex<R, T>);

/// The guard of a locked meter state: a `parking_lot::MutexGuard`, kept
/// in a field because the guard's own type is bounded by a trait of its
/// crate. While it lives the lock is held; dropping it releases the lock.
/// Nothing is claimed of the state behind it.
#[verifier::external_body]
#[verifier::reject_recursive_types(S)]
struct Locked<'a, S> {
    guard: MutexGuard<'a, State<S>>,
}

/// `parking_lot::Mutex::new`: an unlocked mutex that owns `state`.
#[verifier::external_body]
fn guard_state<S>(state: State<S>) -> (mutex: Mutex<State<S>>)
{
    Mutex::new(state)
}

/// `parking_lot::Mutex::lock`: blocks until the lock is free and returns
/// the guard that holds it. A thread that already holds the lock must not
/// call it again; the meter never locks while it holds a guard.
#[verifier::external_body]
fn lock_state<'a, S>(mutex: &'a Mutex<State<S>>) -> (guard: Locked<'a, S>)
{
    Locked { guard: mutex.lock() }
}

/// `Deref::deref` of a `parking_lot::MutexGuard`: the protected state.
/// Nothing is claimed of what it holds, which other callers have written.
#[verifier::external_body]
fn locked<'a, 'b, S>(guard: &'a Locked<'b, S>) -> (state: &'a State<S>)
{
    &*guard.guard
}

/// `DerefMut::deref_mut` of a `parking_lot::MutexGuard`: the protected
/// state, for writing. Nothing is claimed of what it holds.
#[verifier::external_body]
fn locked_mut<'a, 'b, S>(guard: &'a mut Locked<'b, S>) -> (state: &'a mut State<S>)
{
    &mut *guard.guard
}

/// Whether a mean rate is defined: some event has been counted and some
/// time has passed. Where it is not, the mean rate is reported as zero.
pub open spec fn spec_mean_defined(count: i64, secs: u64, nanos: u32) -> bool {
    count != 0 && (secs != 0 || nanos != 0)
}

/// Decides whether the mean rate is the quotient of count and elapsed time.
pub fn mean_defined(count: i64, secs: u64, nanos: u32) -> (defined: bool)
    ensures
        defined == spec_mean_defined(count, secs, nanos),
{
    count != 0 && (secs != 0 || nanos != 0)
}

/// `rate` is the mean rate of `count` events over the given span of time:
/// the count over the seconds where that is defined, zero where it is not.
pub open spec fn is_mean<S: Scalar>(count: i64, secs: u64, nanos: u32, rate: S) -> bool {
    if spec_mean_defined(count, secs, nanos) {
        exists|c: S, t: S|
            #![auto]
            is_from_i64(count, c) && is_from_duration(secs, nanos, t) && is_quotient(c, t, rate)
    } else {
        is_zero(rate)
    }
}

/// The mean rate of `count` events over a span of `secs` whole seconds and
/// `nanos` nanoseconds. A span of no time at all is never divided by.
pub fn mean_of<S: Scalar>(count: i64, secs: u64, nanos: u32) -> (rate: S)
    ensures
        is_mean(count, secs, nanos, rate),
        count != 0 && secs == 0 && nanos == 0 ==> is_zero(rate),
        count == 0 ==> is_zero(rate),
{
    if mean_defined(count, secs, nanos) {
        let events = S::from_i64(count);
        let time = S::from_duration(secs, nanos);
        let rate = events.over(time);
        proof {
            assert(is_from_i64(count, events) && is_from_duration(secs, nanos, time)
                && is_quotient(events, time, rate));
        }
        rate
    } else {
        let rate = S::zero();
        proof {
            assert(is_zero(rate));
        }
        rate
    }
}

/// A metric tracking the rate of occurrence of an event.
///
/// The meter tracks rolling average rates in the same manner as the load
/// average of a Linux kernel.
#[verifier::reject_recursive_types(S)]
pub struct Meter<S, C> {
    uncounted: AtomicI64,
    last_tick: AtomicU64,
    start_time: Instant,
    clock: C,
    state: Mutex<State<S>>,
}

impl<S, C> Meter<S, C> {
    /// The time source of the meter.
    pub closed spec fn clock(&self) -> C {
        self.clock
    }

    /// The instant at which the meter was made; all ticks are counted in
    /// whole seconds from it.
    pub closed spec fn start_time(&self) -> Instant {
        self.start_time
    }
}

impl<S: Scalar> Meter<S, SystemClock> {
    /// Creates a new meter on the clock of the machine, started at the
    /// instant that the clock shows.
    pub fn new() -> (meter: Meter<S, SystemClock>)
        ensures
            meter.clock() == SystemClock,
            is_reading(meter.clock(), meter.start_time()),
    {
        Meter::new_with(SystemClock)
    }
}

impl<S: Scalar> Default for Meter<S, SystemClock> {
    fn default() -> (meter: Meter<S, SystemClock>)
    {
        Meter::new()
    }
}

impl<S: Scalar, C: Clock> Meter<S, C> {
    /// Creates a new meter using the provided clock as its time source.
    /// The meter keeps the clock and starts at the instant that the clock
    /// shows; nothing is pending, no tick has been made, and the state
    /// under the lock is that of `State::new`.
    pub fn new_with(clock: C) -> (meter: Meter<S, C>)
        ensures
            meter.clock() == clock,
            is_reading(clock, meter.start_time()),
    {
        let start_time = clock.now();
        Meter {
            uncounted: AtomicI64::new(0),
            last_tick: AtomicU64::new(0),
            start_time,
            clock,
            state: guard_state(State::new()),
        }
    }

    /// Marks the occurrence of `n` events; a negative `n` takes events
    /// back. The tick is brought up to date first, so that the events fall
    /// into the running interval; recording them takes no lock.
    pub fn mark(&self, n: i64)
    {
        self.tick_if_necessary();
        self.uncounted.fetch_add(n, Ordering::SeqCst);
    }

    /// Returns the number of events registered by the meter, the ones that
    /// no tick has folded in yet included.
    pub fn count(&self) -> (events: i64)
    {
        let guard = lock_state(&self.state);
        let folded: i64 = locked(&guard).count;
        let pending: i64 = self.uncounted.load(Ordering::SeqCst);
        total(folded, pending)
    }

    /// Returns the ten second rolling average rate of the occurrence of
    /// events, in events per second.
    pub fn ten_second_rate(&self) -> (rate: S)
    {
        self.tick_if_necessary();
        let guard = lock_state(&self.state);
        locked(&guard).rate_10s.get()
    }

    /// Returns the thirty second rolling average rate of the occurrence of
    /// events, in events per second.
    pub fn thirty_second_rate(&self) -> (rate: S)
    {
        self.tick_if_necessary();
        let guard = lock_state(&self.state);
        locked(&guard).rate_30s.get()
    }

    /// Returns the one minute rolling average rate of the occurrence of
    /// events, in events per second.
    pub fn one_minute_rate(&self) -> (rate: S)
    {
        self.tick_if_necessary();
        let guard = lock_state(&self.state);
        locked(&guard).rate_1m.get()
    }

    /// Returns the five minute rolling average rate of the occurrence of
    /// events, in events per second.
    pub fn five_minute_rate(&self) -> (rate: S)
    {
        self.tick_if_necessary();
        let guard = lock_state(&self.state);
        locked(&guard).rate_5m.get()
    }

    /// Returns the fifteen minute rolling average rate of the occurrence of
    /// events, in events per second.
    pub fn fifteen_minute_rate(&self) -> (rate: S)
    {
        self.tick_if_necessary();
        let guard = lock_state(&self.state);
        locked(&guard).rate_15m.get()
    }

    /// Returns the mean rate of the occurrence of events since the creation
    /// of the meter, in events per second: zero while nothing has been
    /// counted or no time has passed, else the count over the elapsed time.
    pub fn mean_rate(&self) -> (rate: S)
        ensures
            exists|count: i64, secs: u64, nanos: u32| #![auto] is_mean(count, secs, nanos, rate),
    {
        let count: i64 = self.count();
        let now = self.clock.now();
        let elapsed = elapsed_between(&now, &self.start_time);
        let secs: u64 = whole_secs(&elapsed);
        let nanos: u32 = subsec_nanos(&elapsed);
        mean_of(count, secs, nanos)
    }

    /// Advances the aggregate state if a whole interval has elapsed since
    /// the last tick and no other caller has advanced it meanwhile. Returns
    /// the tick that this call applied, if it applied one.
    fn tick_if_necessary(&self) -> (applied: Option<TickPlan>)
        ensures
            applied matches Some(plan) ==> {
                &&& plan.required_ticks >= 1
                &&& exists|last_tick: u64, now_secs: u64|
                    #![auto]
                    spec_tick_plan(last_tick, now_secs) == Some(plan)
            },
    {
        let time = self.clock.now();
        let old_tick: u64 = self.last_tick.load(Ordering::SeqCst);
        let new_tick: u64 = whole_secs(&elapsed_between(&time, &self.start_time));
        match tick_plan(old_tick, new_tick) {
            None => None,
            Some(plan) => {
                let won = self.last_tick.compare_exchange(
                    old_tick,
                    plan.interval_start,
                    Ordering::SeqCst,
                    Ordering::SeqCst,
                );
                if won.is_err() {
                    // another caller has already ticked
                    return None;
                }
                let mut guard = lock_state(&self.state);
                let delta: i64 = self.uncounted.swap(0, Ordering::SeqCst);
                locked_mut(&mut guard).apply(plan, delta);
                Some(plan)
            },
        }
    }
}

} // verus!
