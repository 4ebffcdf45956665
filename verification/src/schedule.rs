//! The tick schedule: when the windows of a meter have to be advanced, to
//! which second, and by how many intervals.

use vstd::prelude::*;

verus! {

/// Length of one accounting interval, in seconds.
pub const INTERVAL_SECS: u64 = 5;

/// Largest number of intervals that a window can decay over in closed form.
pub const MAX_DECAY_TICKS: u64 = 2147483647;

/// What a caller that found the meter out of date has to do.
#[derive(Clone, Copy, Debug, PartialEq, Eq, Structural)]
pub struct TickPlan {
    /// The second, aligned to the interval grid, that `last_tick` moves to.
    pub interval_start: u64,
    /// The number of whole intervals that have elapsed since `last_tick`.
    pub required_ticks: u64,
}

/// Seconds between the last tick and now; negative when the caller's reading
/// of the clock is older than a tick that another caller has already made.
pub open spec fn age(last_tick: u64, now_secs: u64) -> int {
    now_secs - last_tick
}

/// A tick is due once a whole interval has elapsed.
pub open spec fn tick_due(last_tick: u64, now_secs: u64) -> bool {
    age(last_tick, now_secs) >= INTERVAL_SECS
}

/// The plan for a due tick: `last_tick` advances by the largest multiple of
/// the interval that fits into the age.
pub open spec fn plan_of(last_tick: u64, now_secs: u64) -> TickPlan
    recommends
        tick_due(last_tick, now_secs),
{
    TickPlan {
        interval_start: (now_secs - age(last_tick, now_secs) % (INTERVAL_SECS as int)) as u64,
        required_ticks: (age(last_tick, now_secs) / (INTERVAL_SECS as int)) as u64,
    }
}

/// `None` while the state is current, the plan once a tick is due.
pub open spec fn spec_tick_plan(last_tick: u64, now_secs: u64) -> Option<TickPlan> {
    if tick_due(last_tick, now_secs) {
        Some(plan_of(last_tick, now_secs))
    } else {
        None
    }
}

/// Decides whether a tick is due `now_secs` whole seconds after the start of
/// a meter that was last advanced at second `last_tick`.
pub fn tick_plan(last_tick: u64, now_secs: u64) -> (plan: Option<TickPlan>)
    ensures
        plan == spec_tick_plan(last_tick, now_secs),
        plan matches Some(p) ==> {
            &&& last_tick < p.interval_start <= now_secs
            &&& now_secs - p.interval_start < INTERVAL_SECS
            &&& p.interval_start - last_tick == p.required_ticks * INTERVAL_SECS
            &&& p.required_ticks >= 1
        },
{
    if now_secs < last_tick {
        return None;
    }
    let elapsed: u64 = now_secs - last_tick;
    if elapsed < INTERVAL_SECS {
        return None;
    }
    let interval_start: u64 = now_secs - elapsed % INTERVAL_SECS;
    let required_ticks: u64 = elapsed / INTERVAL_SECS;
    Some(TickPlan { interval_start, required_ticks })
}

/// The number of intervals without any event that follow the one interval
/// into which the pending events are fed.
pub open spec fn spec_idle_ticks(plan: TickPlan) -> u64
    recommends
        plan.required_ticks >= 1,
{
    (plan.required_ticks - 1) as u64
}

/// A due tick moves `last_tick` forward, by a whole number of intervals, to
/// the latest point of the interval grid that `now_secs` has reached.
pub proof fn lemma_plan_advances(last_tick: u64, now_secs: u64)
    ensures
        spec_tick_plan(last_tick, now_secs) matches Some(p) ==> {
            &&& last_tick < p.interval_start <= now_secs
            &&& now_secs - p.interval_start < INTERVAL_SECS
            &&& p.interval_start - last_tick == p.required_ticks * INTERVAL_SECS
            &&& p.required_ticks >= 1
        },
        spec_tick_plan(last_tick, now_secs) is None <==> now_secs - last_tick < INTERVAL_SECS,
{
}

/// While the clock does not advance, at most one tick falls due: once
/// `last_tick` has moved to the start that a plan names, nothing is due at
/// the same reading of the clock, nor at a later one short of the next
/// interval.
pub proof fn lemma_tick_settles(last_tick: u64, now_secs: u64, later: u64)
    requires
        now_secs <= later,
    ensures
        spec_tick_plan(last_tick, now_secs) matches Some(p) ==> {
            &&& spec_tick_plan(p.interval_start, now_secs) is None
            &&& later - p.interval_start < INTERVAL_SECS ==> spec_tick_plan(
                p.interval_start,
                later,
            ) is None
        },
{
}

/// After `m` whole intervals, and `rest` seconds short of one more, the
/// plan carries exactly `m` intervals and starts `m` intervals on.
pub proof fn lemma_plan_after_whole_intervals(last_tick: u64, m: u64, rest: u64)
    requires
        m >= 1,
        rest < INTERVAL_SECS,
        last_tick + m * INTERVAL_SECS + rest <= u64::MAX,
    ensures
        spec_tick_plan(last_tick, (last_tick + m * INTERVAL_SECS + rest) as u64) == Some(
            (TickPlan {
                interval_start: (last_tick + m * INTERVAL_SECS) as u64,
                required_ticks: m,
            }),
        ),
        spec_idle_ticks(
            spec_tick_plan(last_tick, (last_tick + m * INTERVAL_SECS + rest) as u64).unwrap(),
        ) == m - 1,
{
}

/// The exponent of a closed-form decay over `ticks` intervals, where it can
/// be represented; beyond that the decayed rate counts as zero.
pub open spec fn spec_decay_exponent(ticks: u64) -> Option<i32> {
    if ticks <= MAX_DECAY_TICKS {
        Some(ticks as i32)
    } else {
        None
    }
}

/// Converts a number of idle intervals into the exponent of the decay factor.
/// `None` tells the window to collapse its rate to zero.
pub fn decay_exponent(ticks: u64) -> (exponent: Option<i32>)
    ensures
        exponent == spec_decay_exponent(ticks),
        exponent matches Some(e) ==> e >= 0 && e == ticks,
        exponent is Some <==> ticks <= MAX_DECAY_TICKS,
{
    if ticks <= MAX_DECAY_TICKS {
        Some(ticks as i32)
    } else {
        None
    }
}

} // verus!
