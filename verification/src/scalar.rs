//! The number type that the tracer computes with.
//!
//! The tracer is written once, over any type that offers the arithmetic
//! operators, the comparisons and the handful of functions of [`Scalar`]. What a
//! contract says of a result is a formula over these operations, so it can say
//! it only of a type whose operations are functions of their operands:
//! [`functional`] is that hypothesis, and it stands in front of every such
//! clause. [`total`] says that the operators can always be applied; the
//! executable functions ask for it, since they apply them.
use std::ops::Add;
use std::ops::Div;
use std::ops::Mul;
use std::ops::Neg;
use std::ops::Sub;
use vstd::prelude::*;
use vstd::std_specs::cmp::PartialEqSpec;
use vstd::std_specs::cmp::PartialOrdIs;
use vstd::std_specs::cmp::PartialOrdSpec;
use vstd::std_specs::ops::AddSpec;
use vstd::std_specs::ops::DivSpec;
use vstd::std_specs::ops::MulSpec;
use vstd::std_specs::ops::NegSpec;
use vstd::std_specs::ops::SubSpec;

verus! {

/// A number type to trace rays with: the operators `+ - * /`, negation, the
/// comparisons, and the functions below.
pub trait Scalar: Copy + PartialOrd + Add<Output = Self> + Sub<Output = Self> + Mul<
    Output = Self,
> + Div<Output = Self> + Neg<Output = Self> {
    /// The number that stands for the count `n`.
    fn from_usize(n: usize) -> Self;

    /// The distance from one to the next larger number of the type.
    fn epsilon() -> Self;

    /// A number that no distance reaches.
    fn infinity() -> Self;

    /// The square root.
    fn sqrt(self) -> Self;

    /// The tangent of an angle in radians.
    fn tan(self) -> Self;

    /// The absolute value.
    fn abs(self) -> Self;

    /// `self` raised to `exponent`.
    fn powf(self, exponent: Self) -> Self;

    /// The larger of two numbers.
    fn max(self, other: Self) -> Self;

    /// The smaller of two numbers.
    fn min(self, other: Self) -> Self;

    /// The number cut down to a whole number from 0 to 255.
    fn to_u8(self) -> u8;
}

/// What `T::from_usize(n)` returns.
pub open spec fn num<T: Scalar>(n: usize) -> T {
    choose|r: T| call_ensures(T::from_usize, (n,), r)
}

/// What `T::epsilon()` returns.
pub open spec fn epsilon<T: Scalar>() -> T {
    choose|r: T| call_ensures(T::epsilon, (), r)
}

/// What `T::infinity()` returns.
pub open spec fn infinity<T: Scalar>() -> T {
    choose|r: T| call_ensures(T::infinity, (), r)
}

/// What `x.sqrt()` returns.
pub open spec fn sqrt<T: Scalar>(x: T) -> T {
    choose|r: T| call_ensures(T::sqrt, (x,), r)
}

/// What `x.tan()` returns.
pub open spec fn tan<T: Scalar>(x: T) -> T {
    choose|r: T| call_ensures(T::tan, (x,), r)
}

/// What `x.abs()` returns.
pub open spec fn abs<T: Scalar>(x: T) -> T {
    choose|r: T| call_ensures(T::abs, (x,), r)
}

/// What `x.powf(e)` returns.
pub open spec fn powf<T: Scalar>(x: T, e: T) -> T {
    choose|r: T| call_ensures(T::powf, (x, e), r)
}

/// What `a.max(b)` returns.
pub open spec fn max<T: Scalar>(a: T, b: T) -> T {
    choose|r: T| call_ensures(T::max, (a, b), r)
}

/// What `a.min(b)` returns.
pub open spec fn min<T: Scalar>(a: T, b: T) -> T {
    choose|r: T| call_ensures(T::min, (a, b), r)
}

/// What `x.to_u8()` returns.
pub open spec fn to_u8<T: Scalar>(x: T) -> u8 {
    choose|r: u8| call_ensures(T::to_u8, (x,), r)
}

/// `a < b`, as the type compares.
pub open spec fn lt<T: Scalar>(a: T, b: T) -> bool {
    a.is_lt(&b)
}

/// `a > b`, as the type compares.
pub open spec fn gt<T: Scalar>(a: T, b: T) -> bool {
    a.is_gt(&b)
}

/// `a == b`, as the type compares.
pub open spec fn eq<T: Scalar>(a: T, b: T) -> bool {
    a.eq_spec(&b)
}

/// The operators of `T` can be applied to any operands.
pub open spec fn total<T: Scalar>() -> bool {
    &&& forall|a: T, b: T| #[trigger] a.add_req(b)
    &&& forall|a: T, b: T| #[trigger] a.sub_req(b)
    &&& forall|a: T, b: T| #[trigger] a.mul_req(b)
    &&& forall|a: T, b: T| #[trigger] a.div_req(b)
    &&& forall|a: T| #[trigger] a.neg_req()
}

/// The operators and comparisons of `T` return what their specifications say,
/// and each function of [`Scalar`] returns one value for given operands.
pub open spec fn functional<T: Scalar>() -> bool {
    &&& T::obeys_add_spec()
    &&& T::obeys_sub_spec()
    &&& T::obeys_mul_spec()
    &&& T::obeys_div_spec()
    &&& T::obeys_neg_spec()
    &&& T::obeys_eq_spec()
    &&& T::obeys_partial_cmp_spec()
    &&& forall|n: usize, r: T| #[trigger] call_ensures(T::from_usize, (n,), r) ==> r == num::<T>(n)
    &&& forall|r: T| #[trigger] call_ensures(T::epsilon, (), r) ==> r == epsilon::<T>()
    &&& forall|r: T| #[trigger] call_ensures(T::infinity, (), r) ==> r == infinity::<T>()
    &&& forall|x: T, r: T| #[trigger] call_ensures(T::sqrt, (x,), r) ==> r == sqrt(x)
    &&& forall|x: T, r: T| #[trigger] call_ensures(T::tan, (x,), r) ==> r == tan(x)
    &&& forall|x: T, r: T| #[trigger] call_ensures(T::abs, (x,), r) ==> r == abs(x)
    &&& forall|x: T, e: T, r: T| #[trigger] call_ensures(T::powf, (x, e), r) ==> r == powf(x, e)
    &&& forall|a: T, b: T, r: T| #[trigger] call_ensures(T::max, (a, b), r) ==> r == max(a, b)
    &&& forall|a: T, b: T, r: T| #[trigger] call_ensures(T::min, (a, b), r) ==> r == min(a, b)
    &&& forall|x: T, r: u8| #[trigger] call_ensures(T::to_u8, (x,), r) ==> r == to_u8(x)
}

} // verus!
