//! The aggregate state of a meter: the lifetime count and the five rate
//! windows.

use vstd::prelude::*;
use crate::ewma::Ewma;
use crate::scalar::{is_from_u64, is_quotient, Scalar};
use crate::schedule::{spec_idle_ticks, spec_tick_plan, TickPlan, INTERVAL_SECS};

verus! {

/// Half-life of the ten-second window, in hundredths of a minute.
pub const HALF_LIFE_10S: u64 = 16;

/// Half-life of the thirty-second window, in hundredths of a minute.
pub const HALF_LIFE_30S: u64 = 50;

/// Half-life of the one-minute window, in hundredths of a minute.
pub const HALF_LIFE_1M: u64 = 100;

/// Half-life of the five-minute window, in hundredths of a minute.
pub const HALF_LIFE_5M: u64 = 500;

/// Half-life of the fifteen-minute window, in hundredths of a minute.
pub const HALF_LIFE_15M: u64 = 1500;

/// The sum of a folded count and a batch of pending events, as a 64-bit
/// two's-complement number.
pub open spec fn spec_total(count: i64, pending: i64) -> i64 {
    let sum = count + pending;
    if sum > i64::MAX {
        (sum - 0x1_0000_0000_0000_0000) as i64
    } else if sum < i64::MIN {
        (sum + 0x1_0000_0000_0000_0000) as i64
    } else {
        sum as i64
    }
}

/// Adds a batch of pending events to a count. The result is the true sum
/// whenever that fits into 64 bits, and wraps around otherwise.
pub fn total(count: i64, pending: i64) -> (sum: i64)
    ensures
        sum == spec_total(count, pending),
        i64::MIN <= count + pending <= i64::MAX ==> sum == count + pending,
{
    count.wrapping_add(pending)
}

/// The two groupings of a count, a pending batch and one more mark agree:
/// a mark that lands before the batch is folded and one that lands after
/// it are reported alike.
pub proof fn lemma_total_regroups(count: i64, pending: i64, n: i64)
    ensures
        spec_total(spec_total(count, pending), n) == spec_total(count, spec_total(pending, n)),
        spec_total(count, 0) == count,
        spec_total(count, pending) == spec_total(pending, count),
{
}

/// `r` is a half-life of that many hundredths of a minute, in minutes.
pub open spec fn is_minutes<S: Scalar>(hundredths: u64, r: S) -> bool {
    exists|h: S, c: S|
        #![auto]
        is_from_u64(hundredths, h) && is_from_u64(100, c) && is_quotient(h, c, r)
}

/// `window` has the given half-life and has observed nothing.
pub open spec fn is_new_window<S: Scalar>(hundredths: u64, window: Ewma<S>) -> bool {
    exists|m: S| #![auto] is_minutes(hundredths, m) && window.is_new(m)
}

/// A half-life given in hundredths of a minute, in minutes.
pub fn minutes<S: Scalar>(hundredths: u64) -> (r: S)
    ensures
        is_minutes(hundredths, r),
{
    let h = S::from_u64(hundredths);
    let c = S::from_u64(100);
    let r = h.over(c);
    proof {
        assert(is_from_u64(hundredths, h) && is_from_u64(100, c) && is_quotient(h, c, r));
    }
    r
}

/// A window of the given half-life that has observed nothing.
fn new_window<S: Scalar>(hundredths: u64) -> (window: Ewma<S>)
    ensures
        is_new_window(hundredths, window),
{
    let m: S = minutes(hundredths);
    let window = Ewma::new(m);
    proof {
        assert(is_minutes(hundredths, m) && window.is_new(m));
    }
    window
}

/// What the lock of a meter protects.
pub struct State<S> {
    /// Events folded in by the ticks so far.
    pub count: i64,
    pub rate_10s: Ewma<S>,
    pub rate_30s: Ewma<S>,
    pub rate_1m: Ewma<S>,
    pub rate_5m: Ewma<S>,
    pub rate_15m: Ewma<S>,
}

impl<S: Scalar> State<S> {
    /// Nothing has been counted, and every window is new with its own
    /// half-life, so every rate is zero.
    pub open spec fn fresh(self) -> bool {
        &&& self.count == 0
        &&& is_new_window(HALF_LIFE_10S, self.rate_10s)
        &&& is_new_window(HALF_LIFE_30S, self.rate_30s)
        &&& is_new_window(HALF_LIFE_1M, self.rate_1m)
        &&& is_new_window(HALF_LIFE_5M, self.rate_5m)
        &&& is_new_window(HALF_LIFE_15M, self.rate_15m)
    }

    /// `after` is `self` once `delta` is folded in and fed to every window
    /// as one interval, followed by `idle` intervals without events.
    pub open spec fn fed(self, delta: i64, idle: u64, after: State<S>) -> bool {
        &&& after.count == spec_total(self.count, delta)
        &&& self.rate_10s.observed(delta, idle, after.rate_10s)
        &&& self.rate_30s.observed(delta, idle, after.rate_30s)
        &&& self.rate_1m.observed(delta, idle, after.rate_1m)
        &&& self.rate_5m.observed(delta, idle, after.rate_5m)
        &&& self.rate_15m.observed(delta, idle, after.rate_15m)
    }

    /// The state of a meter that has recorded nothing.
    pub fn new() -> (state: State<S>)
        ensures
            state.fresh(),
    {
        State {
            count: 0,
            rate_10s: new_window(HALF_LIFE_10S),
            rate_30s: new_window(HALF_LIFE_30S),
            rate_1m: new_window(HALF_LIFE_1M),
            rate_5m: new_window(HALF_LIFE_5M),
            rate_15m: new_window(HALF_LIFE_15M),
        }
    }

    /// Applies one tick: folds `delta` into the count, feeds it to every
    /// window as the latest interval, and ages every window over the
    /// remaining intervals of the plan, which passed without a tick.
    pub fn apply(&mut self, plan: TickPlan, delta: i64)
        requires
            plan.required_ticks >= 1,
        ensures
            old(self).fed(delta, spec_idle_ticks(plan), *final(self)),
    {
        let idle: u64 = plan.required_ticks - 1;
        self.count = total(self.count, delta);
        self.rate_10s.tick(delta);
        let ghost mid_10s = self.rate_10s;
        self.rate_10s.decay(idle);
        self.rate_30s.tick(delta);
        let ghost mid_30s = self.rate_30s;
        self.rate_30s.decay(idle);
        self.rate_1m.tick(delta);
        let ghost mid_1m = self.rate_1m;
        self.rate_1m.decay(idle);
        self.rate_5m.tick(delta);
        let ghost mid_5m = self.rate_5m;
        self.rate_5m.decay(idle);
        self.rate_15m.tick(delta);
        let ghost mid_15m = self.rate_15m;
        self.rate_15m.decay(idle);
        proof {
            assert(old(self).rate_10s.ticked(delta, mid_10s) && mid_10s.decayed(idle, self.rate_10s));
            assert(old(self).rate_30s.ticked(delta, mid_30s) && mid_30s.decayed(idle, self.rate_30s));
            assert(old(self).rate_1m.ticked(delta, mid_1m) && mid_1m.decayed(idle, self.rate_1m));
            assert(old(self).rate_5m.ticked(delta, mid_5m) && mid_5m.decayed(idle, self.rate_5m));
            assert(old(self).rate_15m.ticked(delta, mid_15m) && mid_15m.decayed(idle, self.rate_15m));
        }
    }
}

/// A tick moves the pending events into the folded count and loses none:
/// with nothing pending afterwards, the two together are what they were.
pub proof fn lemma_tick_keeps_total<S: Scalar>(
    before: State<S>,
    after: State<S>,
    pending: i64,
    idle: u64,
)
    requires
        before.fed(pending, idle, after),
    ensures
        spec_total(after.count, 0) == spec_total(before.count, pending),
{
}

/// Skipping ahead: when the clock has advanced by `m` whole intervals (and
/// `rest` seconds short of one more) and nothing was marked, the tick that
/// falls due carries `m` intervals, and applying it feeds every window one
/// interval without events and then ages it over the other `m - 1`.
pub proof fn lemma_skip_ahead<S: Scalar>(
    before: State<S>,
    after: State<S>,
    last_tick: u64,
    m: u64,
    rest: u64,
)
    requires
        m >= 1,
        rest < INTERVAL_SECS,
        last_tick + m * INTERVAL_SECS + rest <= u64::MAX,
        before.fed(
            0,
            spec_idle_ticks(
                spec_tick_plan(last_tick, (last_tick + m * INTERVAL_SECS + rest) as u64).unwrap(),
            ),
            after,
        ),
    ensures
        spec_tick_plan(last_tick, (last_tick + m * INTERVAL_SECS + rest) as u64) == Some(
            (TickPlan {
                interval_start: (last_tick + m * INTERVAL_SECS) as u64,
                required_ticks: m,
            }),
        ),
        after.count == before.count,
        before.rate_10s.observed(0, (m - 1) as u64, after.rate_10s),
        before.rate_30s.observed(0, (m - 1) as u64, after.rate_30s),
        before.rate_1m.observed(0, (m - 1) as u64, after.rate_1m),
        before.rate_5m.observed(0, (m - 1) as u64, after.rate_5m),
        before.rate_15m.observed(0, (m - 1) as u64, after.rate_15m),
{
    crate::schedule::lemma_plan_after_whole_intervals(last_tick, m, rest);
}

} // verus!
