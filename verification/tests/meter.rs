use rate_meter::clock::Clock;
use rate_meter::meter::{mean_defined, mean_of, Meter};
use rate_meter::scalar::Scalar;
use std::sync::{Arc, Mutex};
use std::time::{Duration, Instant};

#[derive(Clone, Copy, Debug, PartialEq)]
struct Real(f64);

impl Scalar for Real {
    fn zero() -> Real {
        Real(0.)
    }
    fn one() -> Real {
        Real(1.)
    }
    fn from_i64(n: i64) -> Real {
        Real(n as f64)
    }
    fn from_u64(n: u64) -> Real {
        Real(n as f64)
    }
    fn from_duration(secs: u64, subsec_nanos: u32) -> Real {
        Real(Duration::new(secs, subsec_nanos).as_secs_f64())
    }
    fn plus(self, rhs: Real) -> Real {
        Real(self.0 + rhs.0)
    }
    fn minus(self, rhs: Real) -> Real {
        Real(self.0 - rhs.0)
    }
    fn times(self, rhs: Real) -> Real {
        Real(self.0 * rhs.0)
    }
    fn over(self, rhs: Real) -> Real {
        Real(self.0 / rhs.0)
    }
    fn negated(self) -> Real {
        Real(-self.0)
    }
    fn exp(self) -> Real {
        Real(self.0.exp())
    }
    fn powi(self, n: i32) -> Real {
        Real(self.0.powi(n))
    }
}

#[derive(Clone)]
struct TestClock {
    now: Arc<Mutex<Instant>>,
}

impl TestClock {
    fn new() -> TestClock {
        TestClock { now: Arc::new(Mutex::new(Instant::now())) }
    }

    fn advance(&self, by: Duration) {
        let mut now = self.now.lock().unwrap();
        *now += by;
    }
}

impl Clock for TestClock {
    fn now(&self) -> Instant {
        *self.now.lock().unwrap()
    }
}

fn close(actual: Real, expected: f64, tolerance: f64) -> bool {
    (actual.0 - expected).abs() < tolerance
}

#[test]
fn starts_out_with_no_rates_or_count() {
    let clock = TestClock::new();
    let meter: Meter<Real, TestClock> = Meter::new_with(clock);

    assert_eq!(meter.count(), 0);
    assert_eq!(meter.one_minute_rate(), Real(0.));
    assert_eq!(meter.five_minute_rate(), Real(0.));
    assert_eq!(meter.fifteen_minute_rate(), Real(0.));
    assert_eq!(meter.mean_rate(), Real(0.))
}

#[test]
fn marks_events_and_updates_rate_and_count() {
    let clock = TestClock::new();
    let meter: Meter<Real, TestClock> = Meter::new_with(clock.clone());

    meter.mark(1);

    clock.advance(Duration::from_secs(10));
    meter.mark(2);

    assert!(close(meter.mean_rate(), 0.3, 0.001));
    assert!(close(meter.one_minute_rate(), 0.1840, 0.001));
    assert!(close(meter.five_minute_rate(), 0.1966, 0.001));
    assert!(close(meter.fifteen_minute_rate(), 0.1988, 0.001));
}

#[test]
fn fresh_meter_reports_zero_short_rates() {
    let meter: Meter<Real, TestClock> = Meter::new_with(TestClock::new());
    assert_eq!(meter.ten_second_rate(), Real(0.));
    assert_eq!(meter.thirty_second_rate(), Real(0.));
}

#[test]
fn system_clock_meter_starts_empty() {
    let meter: Meter<Real, _> = Meter::new();
    assert_eq!(meter.count(), 0);
    assert_eq!(meter.mean_rate(), Real(0.));
}

#[test]
fn count_includes_events_not_yet_folded() {
    let clock = TestClock::new();
    let meter: Meter<Real, TestClock> = Meter::new_with(clock.clone());
    meter.mark(3);
    meter.mark(4);
    assert_eq!(meter.count(), 7);
    clock.advance(Duration::from_secs(5));
    assert_eq!(meter.count(), 7);
    assert!(close(meter.one_minute_rate(), 7. / 5., 1e-12));
    assert_eq!(meter.count(), 7);
    meter.mark(-2);
    assert_eq!(meter.count(), 5);
}

#[test]
fn accessors_do_not_change_anything_while_time_stands_still() {
    let clock = TestClock::new();
    let meter: Meter<Real, TestClock> = Meter::new_with(clock.clone());
    meter.mark(5);
    clock.advance(Duration::from_secs(12));
    let first = (
        meter.count(),
        meter.ten_second_rate(),
        meter.thirty_second_rate(),
        meter.one_minute_rate(),
        meter.five_minute_rate(),
        meter.fifteen_minute_rate(),
        meter.mean_rate(),
    );
    for _ in 0..4 {
        let again = (
            meter.count(),
            meter.ten_second_rate(),
            meter.thirty_second_rate(),
            meter.one_minute_rate(),
            meter.five_minute_rate(),
            meter.fifteen_minute_rate(),
            meter.mean_rate(),
        );
        assert_eq!(first, again);
    }
}

#[test]
fn every_marked_event_is_counted_once_across_ticks() {
    let clock = TestClock::new();
    let meter: Meter<Real, TestClock> = Meter::new_with(clock.clone());
    let mut sum: i64 = 0;
    for step in 0..40i64 {
        meter.mark(step);
        sum += step;
        clock.advance(Duration::from_secs(3));
        assert_eq!(meter.count(), sum);
        meter.one_minute_rate();
        assert_eq!(meter.count(), sum);
    }
    assert_eq!(sum, 780);
}

#[test]
fn ten_second_window_after_one_interval() {
    let clock = TestClock::new();
    let meter: Meter<Real, TestClock> = Meter::new_with(clock.clone());
    meter.mark(10);
    clock.advance(Duration::from_secs(5));
    assert!(close(meter.ten_second_rate(), 2.0, 1e-12));
    clock.advance(Duration::from_secs(5));
    let alpha = 1. - (-5.0f64 / 60. / 0.16).exp();
    assert!(close(meter.ten_second_rate(), 2.0 * (1. - alpha), 1e-12));
    let alpha_30 = 1. - (-5.0f64 / 60. / 0.5).exp();
    assert!(close(meter.thirty_second_rate(), 2.0 * (1. - alpha_30), 1e-12));
}

#[test]
fn skipped_intervals_decay_like_empty_ticks() {
    let skipping = TestClock::new();
    let skipped: Meter<Real, TestClock> = Meter::new_with(skipping.clone());
    let stepping = TestClock::new();
    let stepped: Meter<Real, TestClock> = Meter::new_with(stepping.clone());

    skipped.mark(9);
    stepped.mark(9);
    skipping.advance(Duration::from_secs(5));
    stepping.advance(Duration::from_secs(5));
    skipped.one_minute_rate();
    stepped.one_minute_rate();

    skipping.advance(Duration::from_secs(35));
    for _ in 0..7 {
        stepping.advance(Duration::from_secs(5));
        stepped.one_minute_rate();
    }

    let a = skipped.one_minute_rate();
    let b = stepped.one_minute_rate();
    assert!(close(a, b.0, 1e-12));
    assert!(close(skipped.fifteen_minute_rate(), stepped.fifteen_minute_rate().0, 1e-12));
    assert!(close(a, 1.8 * (-1.0f64 / 12.).exp().powi(7), 1e-12));
}

#[test]
fn mean_rate_is_zero_when_no_time_has_passed() {
    let meter: Meter<Real, TestClock> = Meter::new_with(TestClock::new());
    meter.mark(4);
    assert_eq!(meter.count(), 4);
    assert_eq!(meter.mean_rate(), Real(0.));
}

#[test]
fn mean_rate_counts_fractions_of_a_second() {
    let clock = TestClock::new();
    let meter: Meter<Real, TestClock> = Meter::new_with(clock.clone());
    meter.mark(3);
    clock.advance(Duration::from_millis(1500));
    assert!(close(meter.mean_rate(), 2.0, 1e-12));
}

#[test]
fn mean_rate_is_defined_only_with_events_and_time() {
    assert!(!mean_defined(0, 10, 0));
    assert!(!mean_defined(5, 0, 0));
    assert!(mean_defined(5, 0, 1));
    assert!(mean_defined(-5, 3, 0));
    assert!(!mean_defined(0, 0, 0));
}

#[test]
fn mean_of_divides_count_by_elapsed_seconds() {
    assert_eq!(mean_of::<Real>(3, 10, 0), Real(0.3));
    assert_eq!(mean_of::<Real>(3, 1, 500_000_000), Real(2.0));
    assert_eq!(mean_of::<Real>(-6, 3, 0), Real(-2.0));
    assert_eq!(mean_of::<Real>(0, 10, 0), Real(0.));
    assert_eq!(mean_of::<Real>(7, 0, 0), Real(0.));
}

#[test]
fn default_meter_starts_empty() {
    let meter: Meter<Real, _> = Meter::default();
    assert_eq!(meter.count(), 0);
    assert_eq!(meter.one_minute_rate(), Real(0.));
}

#[test]
fn a_mark_after_a_long_pause_is_counted_after_the_tick() {
    let clock = TestClock::new();
    let meter: Meter<Real, TestClock> = Meter::new_with(clock.clone());
    meter.mark(6);
    clock.advance(Duration::from_secs(5 * 3_000_000_000));
    meter.mark(1);
    assert_eq!(meter.count(), 7);
    assert_eq!(meter.one_minute_rate(), Real(0.));
    assert_eq!(meter.fifteen_minute_rate(), Real(0.));
    clock.advance(Duration::from_secs(5));
    assert!(close(meter.one_minute_rate(), 0.2 * (1. - (-1.0f64 / 12.).exp()), 1e-12));
}
