//! An exponentially weighted moving average of a rate, advanced once per
//! interval.

use vstd::prelude::*;
use crate::scalar::{
    is_difference, is_exp, is_from_i64, is_from_u64, is_negation, is_one, is_power, is_product,
    is_quotient, is_sum, is_zero, Scalar,
};
use crate::schedule::{decay_exponent, spec_decay_exponent, INTERVAL_SECS};

verus! {

/// Seconds in a minute.
pub const SECONDS_PER_MINUTE: u64 = 60;

/// `r` is the rate of one interval in which `count` events were observed:
/// `count / interval`.
pub open spec fn is_instant_rate<S: Scalar>(count: i64, r: S) -> bool {
    exists|c: S, i: S|
        #![auto]
        is_from_i64(count, c) && is_from_u64(INTERVAL_SECS, i) && is_quotient(c, i, r)
}

/// `alpha` is the smoothing constant of a window with the given half-life:
/// `1 - exp(-interval / 60 / minutes)`.
pub open spec fn is_alpha<S: Scalar>(minutes: S, alpha: S) -> bool {
    exists|i: S, n: S, m: S, q: S, x: S, e: S, o: S|
        #![auto]
        is_from_u64(INTERVAL_SECS, i) && is_negation(i, n) && is_from_u64(SECONDS_PER_MINUTE, m)
            && is_quotient(n, m, q) && is_quotient(q, minutes, x) && is_exp(x, e) && is_one(o)
            && is_difference(o, e, alpha)
}

/// `r` is `rate` blended with a new observation:
/// `rate + alpha * (instant - rate)`.
pub open spec fn is_blend<S: Scalar>(rate: S, alpha: S, instant: S, r: S) -> bool {
    exists|d: S, p: S|
        #![auto]
        is_difference(instant, rate, d) && is_product(alpha, d, p) && is_sum(rate, p, r)
}

/// `r` is `rate` aged over `exponent` intervals without events:
/// `rate * (1 - alpha)^exponent`.
pub open spec fn is_aged<S: Scalar>(rate: S, alpha: S, exponent: i32, r: S) -> bool {
    exists|o: S, q: S, f: S|
        #![auto]
        is_one(o) && is_difference(o, alpha, q) && is_power(q, exponent, f) && is_product(
            rate,
            f,
            r,
        )
}

/// A smoothed rate of events per second over one window.
pub struct Ewma<S> {
    rate: S,
    alpha: S,
    initialized: bool,
}

impl<S: Scalar> Ewma<S> {
    /// The current smoothed rate.
    pub closed spec fn rate(self) -> S {
        self.rate
    }

    /// The smoothing constant, fixed when the window is made.
    pub closed spec fn alpha(self) -> S {
        self.alpha
    }

    /// Whether an interval has been observed yet.
    pub closed spec fn is_initialized(self) -> bool {
        self.initialized
    }

    /// `self` is a window of the given half-life that has observed nothing.
    pub open spec fn is_new(self, minutes: S) -> bool {
        &&& !self.is_initialized()
        &&& is_zero(self.rate())
        &&& is_alpha(minutes, self.alpha())
    }

    /// `after` is `self` once `count` events of one more interval are fed.
    pub open spec fn ticked(self, count: i64, after: Ewma<S>) -> bool {
        &&& after.is_initialized()
        &&& after.alpha() == self.alpha()
        &&& if self.is_initialized() {
            exists|instant: S|
                #![auto]
                is_instant_rate(count, instant) && is_blend(
                    self.rate(),
                    self.alpha(),
                    instant,
                    after.rate(),
                )
        } else {
            is_instant_rate(count, after.rate())
        }
    }

    /// `after` is `self` aged over `ticks` intervals without events.
    pub open spec fn decayed(self, ticks: u64, after: Ewma<S>) -> bool {
        if ticks == 0 {
            after == self
        } else {
            &&& after.is_initialized() == self.is_initialized()
            &&& after.alpha() == self.alpha()
            &&& match spec_decay_exponent(ticks) {
                Some(exponent) => is_aged(self.rate(), self.alpha(), exponent, after.rate()),
                None => is_zero(after.rate()),
            }
        }
    }

    /// `after` is `self` once `count` events are fed as the latest interval
    /// and `idle` further intervals without events are made up for.
    pub open spec fn observed(self, count: i64, idle: u64, after: Ewma<S>) -> bool {
        exists|mid: Ewma<S>| #![auto] self.ticked(count, mid) && mid.decayed(idle, after)
    }

    /// A window with the given half-life in minutes that has observed no
    /// interval yet.
    pub fn new(minutes: S) -> (ewma: Ewma<S>)
        ensures
            ewma.is_new(minutes),
    {
        let interval = S::from_u64(INTERVAL_SECS);
        let negative = interval.negated();
        let minute = S::from_u64(SECONDS_PER_MINUTE);
        let per_minute = negative.over(minute);
        let exponent = per_minute.over(minutes);
        let kept = exponent.exp();
        let one = S::one();
        let alpha = one.minus(kept);
        let rate = S::zero();
        proof {
            assert(is_from_u64(INTERVAL_SECS, interval) && is_negation(interval, negative)
                && is_from_u64(SECONDS_PER_MINUTE, minute) && is_quotient(
                negative,
                minute,
                per_minute,
            ) && is_quotient(per_minute, minutes, exponent) && is_exp(exponent, kept) && is_one(one)
                && is_difference(one, kept, alpha));
            assert(is_zero(rate));
        }
        Ewma { rate, alpha, initialized: false }
    }

    /// Feeds the number of events observed over the latest interval. The
    /// first observation seeds the rate; every later one is blended in with
    /// weight `alpha`.
    pub fn tick(&mut self, count: i64)
        ensures
            old(self).ticked(count, *final(self)),
    {
        let events = S::from_i64(count);
        let interval = S::from_u64(INTERVAL_SECS);
        let instant_rate = events.over(interval);
        proof {
            assert(is_from_i64(count, events) && is_from_u64(INTERVAL_SECS, interval)
                && is_quotient(events, interval, instant_rate));
            assert(is_instant_rate(count, instant_rate));
        }
        if self.initialized {
            let change = instant_rate.minus(self.rate);
            let step = self.alpha.times(change);
            let blended = self.rate.plus(step);
            proof {
                assert(is_difference(instant_rate, self.rate, change) && is_product(
                    self.alpha,
                    change,
                    step,
                ) && is_sum(self.rate, step, blended));
                assert(is_blend(self.rate, self.alpha, instant_rate, blended));
            }
            self.rate = blended;
        } else {
            self.rate = instant_rate;
            self.initialized = true;
        }
    }

    /// Ages the rate over `ticks` intervals without any event, in one step:
    /// the rate is multiplied by `(1 - alpha)` raised to `ticks`. Over more
    /// intervals than an exponent can hold the rate becomes zero. Zero ticks
    /// leave the window as it is.
    pub fn decay(&mut self, ticks: u64)
        ensures
            old(self).decayed(ticks, *final(self)),
    {
        if ticks == 0 {
            return ;
        }
        match decay_exponent(ticks) {
            Some(exponent) => {
                let one = S::one();
                let kept = one.minus(self.alpha);
                let factor = kept.powi(exponent);
                let aged = self.rate.times(factor);
                proof {
                    assert(is_one(one) && is_difference(one, self.alpha, kept) && is_power(
                        kept,
                        exponent,
                        factor,
                    ) && is_product(self.rate, factor, aged));
                    assert(is_aged(self.rate, self.alpha, exponent, aged));
                }
                self.rate = aged;
            },
            None => {
                let zero = S::zero();
                proof {
                    assert(is_zero(zero));
                }
                self.rate = zero;
            },
        }
    }

    /// The current smoothed rate.
    pub fn get(&self) -> (rate: S)
        ensures
            rate == self.rate(),
    {
        self.rate
    }
}

} // verus!
