//! The arithmetic that a rate is computed in.

use vstd::prelude::*;

verus! {

/// A number type for rates. The meter fixes which operations are applied to
/// which operands and in what order; what an operation computes is the
/// implementor's. Contracts therefore speak of a rate through the calls
/// that produced it: `is_sum(a, b, r)` says that `r` is what `a.plus(b)`
/// returned.
pub trait Scalar: Copy {
    /// The number zero.
    fn zero() -> Self;

    /// The number one.
    fn one() -> Self;

    /// The number nearest to a signed count.
    fn from_i64(n: i64) -> Self;

    /// The number nearest to an unsigned count.
    fn from_u64(n: u64) -> Self;

    /// A span of time in seconds, from its whole seconds and the
    /// nanoseconds beyond them.
    fn from_duration(secs: u64, subsec_nanos: u32) -> Self;

    /// `self + rhs`.
    fn plus(self, rhs: Self) -> Self;

    /// `self - rhs`.
    fn minus(self, rhs: Self) -> Self;

    /// `self * rhs`.
    fn times(self, rhs: Self) -> Self;

    /// `self / rhs`.
    fn over(self, rhs: Self) -> Self;

    /// `-self`.
    fn negated(self) -> Self;

    /// `e` raised to `self`.
    fn exp(self) -> Self;

    /// `self` raised to the integer power `n`.
    fn powi(self, n: i32) -> Self;
}

/// `r` is a result of `S::zero()`.
pub open spec fn is_zero<S: Scalar>(r: S) -> bool {
    call_ensures(S::zero, (), r)
}

/// `r` is a result of `S::one()`.
pub open spec fn is_one<S: Scalar>(r: S) -> bool {
    call_ensures(S::one, (), r)
}

/// `r` is a result of `S::from_i64(n)`.
pub open spec fn is_from_i64<S: Scalar>(n: i64, r: S) -> bool {
    call_ensures(S::from_i64, (n,), r)
}

/// `r` is a result of `S::from_u64(n)`.
pub open spec fn is_from_u64<S: Scalar>(n: u64, r: S) -> bool {
    call_ensures(S::from_u64, (n,), r)
}

/// `r` is a result of `S::from_duration(secs, subsec_nanos)`.
pub open spec fn is_from_duration<S: Scalar>(secs: u64, subsec_nanos: u32, r: S) -> bool {
    call_ensures(S::from_duration, (secs, subsec_nanos), r)
}

/// `r` is a result of `a.plus(b)`.
pub open spec fn is_sum<S: Scalar>(a: S, b: S, r: S) -> bool {
    call_ensures(S::plus, (a, b), r)
}

/// `r` is a result of `a.minus(b)`.
pub open spec fn is_difference<S: Scalar>(a: S, b: S, r: S) -> bool {
    call_ensures(S::minus, (a, b), r)
}

/// `r` is a result of `a.times(b)`.
pub open spec fn is_product<S: Scalar>(a: S, b: S, r: S) -> bool {
    call_ensures(S::times, (a, b), r)
}

/// `r` is a result of `a.over(b)`.
pub open spec fn is_quotient<S: Scalar>(a: S, b: S, r: S) -> bool {
    call_ensures(S::over, (a, b), r)
}

/// `r` is a result of `a.negated()`.
pub open spec fn is_negation<S: Scalar>(a: S, r: S) -> bool {
    call_ensures(S::negated, (a,), r)
}

/// `r` is a result of `a.exp()`.
pub open spec fn is_exp<S: Scalar>(a: S, r: S) -> bool {
    call_ensures(S::exp, (a,), r)
}

/// `r` is a result of `a.powi(n)`.
pub open spec fn is_power<S: Scalar>(a: S, n: i32, r: S) -> bool {
    call_ensures(S::powi, (a, n), r)
}

} // verus!
