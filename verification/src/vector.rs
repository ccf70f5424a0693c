//! Vectors of three components over any number type, with the usual operators.
//!
//! Every operator is stated through the specifications that `vstd` gives to the
//! operators of the component type: `a + b` on vectors is the vector of the
//! componentwise `add_spec`, and it may be called where each componentwise
//! `add_req` holds. For the primitive integers that is exact arithmetic without
//! overflow.
use crate::scalar::Scalar;
use crate::scalar::functional;
use crate::scalar::num;
use crate::scalar::sqrt;
use crate::scalar::total;
use std::ops::Add;
use std::ops::Index;
use std::ops::Mul;
use std::ops::Neg;
use std::ops::Sub;
use vstd::prelude::*;
use vstd::std_specs::ops::AddSpec;
use vstd::std_specs::ops::AddSpecImpl;
use vstd::std_specs::ops::DivSpec;
use vstd::std_specs::ops::MulSpec;
use vstd::std_specs::ops::MulSpecImpl;
use vstd::std_specs::ops::NegSpec;
use vstd::std_specs::ops::NegSpecImpl;
use vstd::std_specs::ops::SubSpec;
use vstd::std_specs::ops::SubSpecImpl;

verus! {

/// A vector of three components.
#[derive(Debug, Copy, Clone, PartialEq, Eq)]
pub struct Vec3<T> {
    pub x: T,
    pub y: T,
    pub z: T,
}

impl<T> Vec3<T> {
    /// Builds the vector with the given components.
    pub fn new(x: T, y: T, z: T) -> (v: Self)
        ensures
            v == (Vec3 { x, y, z }),
    {
        Self { x, y, z }
    }

    /// The component at position `i`: `x`, `y`, `z` for 0, 1, 2.
    pub open spec fn at(self, i: int) -> T {
        if i == 0 {
            self.x
        } else if i == 1 {
            self.y
        } else {
            self.z
        }
    }
}

impl<T: Add<Output = T>> AddSpecImpl for Vec3<T> {
    open spec fn obeys_add_spec() -> bool {
        T::obeys_add_spec()
    }

    open spec fn add_req(self, rhs: Self) -> bool {
        self.x.add_req(rhs.x) && self.y.add_req(rhs.y) && self.z.add_req(rhs.z)
    }

    open spec fn add_spec(self, rhs: Self) -> Self {
        Vec3 { x: self.x.add_spec(rhs.x), y: self.y.add_spec(rhs.y), z: self.z.add_spec(rhs.z) }
    }
}

/// Componentwise sum.
impl<T: Add<Output = T>> Add for Vec3<T> {
    type Output = Self;

    fn add(self, other: Self) -> Self {
        Self { x: self.x + other.x, y: self.y + other.y, z: self.z + other.z }
    }
}

impl<T: Sub<Output = T>> SubSpecImpl for Vec3<T> {
    open spec fn obeys_sub_spec() -> bool {
        T::obeys_sub_spec()
    }

    open spec fn sub_req(self, rhs: Self) -> bool {
        self.x.sub_req(rhs.x) && self.y.sub_req(rhs.y) && self.z.sub_req(rhs.z)
    }

    open spec fn sub_spec(self, rhs: Self) -> Self {
        Vec3 { x: self.x.sub_spec(rhs.x), y: self.y.sub_spec(rhs.y), z: self.z.sub_spec(rhs.z) }
    }
}

/// Componentwise difference.
impl<T: Sub<Output = T>> Sub for Vec3<T> {
    type Output = Self;

    fn sub(self, other: Self) -> Self {
        Self { x: self.x - other.x, y: self.y - other.y, z: self.z - other.z }
    }
}

impl<T: Mul<Output = T> + Add<Output = T>> Vec3<T> {
    /// The sum of the first two componentwise products, as the dot product forms it.
    pub open spec fn dot_head(self, rhs: Self) -> T {
        self.x.mul_spec(rhs.x).add_spec(self.y.mul_spec(rhs.y))
    }

    /// The dot product: `(x*x' + y*y') + z*z'`, summed in this order.
    pub open spec fn dot(self, rhs: Self) -> T {
        self.dot_head(rhs).add_spec(self.z.mul_spec(rhs.z))
    }

    /// Whether the two sums of the dot product can be formed: the products and
    /// the first sum are what their specifications say and can be added.
    pub open spec fn dot_sums_req(self, rhs: Self) -> bool {
        &&& T::obeys_mul_spec()
        &&& T::obeys_add_spec()
        &&& self.x.mul_spec(rhs.x).add_req(self.y.mul_spec(rhs.y))
        &&& self.dot_head(rhs).add_req(self.z.mul_spec(rhs.z))
    }
}

impl<T: Mul<Output = T> + Add<Output = T>> MulSpecImpl for Vec3<T> {
    open spec fn obeys_mul_spec() -> bool {
        T::obeys_mul_spec() && T::obeys_add_spec()
    }

    open spec fn mul_req(self, rhs: Self) -> bool {
        &&& self.x.mul_req(rhs.x)
        &&& self.y.mul_req(rhs.y)
        &&& self.z.mul_req(rhs.z)
        &&& (forall|a: T, b: T| #[trigger] a.add_req(b)) || self.dot_sums_req(rhs)
    }

    open spec fn mul_spec(self, rhs: Self) -> T {
        self.dot(rhs)
    }
}

/// Dot product.
impl<T: Mul<Output = T> + Add<Output = T>> Mul for Vec3<T> {
    type Output = T;

    fn mul(self, other: Self) -> T {
        self.x * other.x + self.y * other.y + self.z * other.z
    }
}

impl<T: Mul<Output = T>> Vec3<T> {
    /// The vector with each component multiplied by `k`.
    pub open spec fn scale(self, k: T) -> Self {
        Vec3 { x: self.x.mul_spec(k), y: self.y.mul_spec(k), z: self.z.mul_spec(k) }
    }
}

impl<T: Copy + Mul<Output = T>> MulSpecImpl<T> for Vec3<T> {
    open spec fn obeys_mul_spec() -> bool {
        T::obeys_mul_spec()
    }

    open spec fn mul_req(self, rhs: T) -> bool {
        self.x.mul_req(rhs) && self.y.mul_req(rhs) && self.z.mul_req(rhs)
    }

    open spec fn mul_spec(self, rhs: T) -> Self {
        self.scale(rhs)
    }
}

/// Product with a number: each component times `other`.
impl<T: Copy + Mul<Output = T>> Mul<T> for Vec3<T> {
    type Output = Self;

    fn mul(self, other: T) -> Self {
        Self { x: self.x * other, y: self.y * other, z: self.z * other }
    }
}

impl<T: Neg<Output = T>> NegSpecImpl for Vec3<T> {
    open spec fn obeys_neg_spec() -> bool {
        T::obeys_neg_spec()
    }

    open spec fn neg_req(self) -> bool {
        self.x.neg_req() && self.y.neg_req() && self.z.neg_req()
    }

    open spec fn neg_spec(self) -> Self {
        Vec3 { x: self.x.neg_spec(), y: self.y.neg_spec(), z: self.z.neg_spec() }
    }
}

/// Componentwise negation.
impl<T: Neg<Output = T>> Neg for Vec3<T> {
    type Output = Self;

    fn neg(self) -> Self {
        Self { x: self.x.neg(), y: self.y.neg(), z: self.z.neg() }
    }
}

impl<T> vstd::std_specs::core::IndexSpecImpl<usize> for Vec3<T> {
    open spec fn index_req(&self, index: &usize) -> bool {
        *index < 3
    }
}

/// The component at a position below 3. Verified callers cannot ask for
/// another position; a caller that Verus has not seen and that does is stopped.
impl<T> Index<usize> for Vec3<T> {
    type Output = T;

    fn index(&self, index: usize) -> (r: &T)
        ensures
            *r == self.at(index as int),
    {
        if index == 0 {
            &self.x
        } else if index == 1 {
            &self.y
        } else if index == 2 {
            &self.z
        } else {
            unreached()
        }
    }
}

/// The cross product of two values.
pub trait Cross: Sized {
    type Output;

    /// Whether `cross` returns what `cross_spec` says.
    spec fn obeys_cross_spec() -> bool;

    /// Whether the product of `self` and `other` can be formed.
    spec fn cross_req(&self, other: Self) -> bool;

    /// The product of `self` and `other`.
    spec fn cross_spec(&self, other: Self) -> Self::Output;

    fn cross(&self, other: Self) -> (r: Self::Output)
        requires
            self.cross_req(other),
        ensures
            Self::obeys_cross_spec() ==> r == self.cross_spec(other),
    ;
}

/// `a*b - c*d` over the component type's operators.
pub open spec fn diff_of_products<T: Mul<Output = T> + Sub<Output = T>>(a: T, b: T, c: T, d: T) -> T {
    a.mul_spec(b).sub_spec(c.mul_spec(d))
}

/// Whether `a*b - c*d` can be formed: both products can, and either any
/// difference can or the products are what their specification says and can be
/// subtracted.
pub open spec fn diff_of_products_req<T: Mul<Output = T> + Sub<Output = T>>(
    a: T,
    b: T,
    c: T,
    d: T,
) -> bool {
    &&& a.mul_req(b)
    &&& c.mul_req(d)
    &&& (forall|p: T, q: T| #[trigger] p.sub_req(q)) || (T::obeys_mul_spec() && a.mul_spec(b).sub_req(
        c.mul_spec(d),
    ))
}

/// The cross product of `a` and `b`.
pub open spec fn cross_product<T: Mul<Output = T> + Sub<Output = T>>(a: Vec3<T>, b: Vec3<T>) -> Vec3<T> {
    Vec3 {
        x: diff_of_products(a.y, b.z, a.z, b.y),
        y: diff_of_products(a.z, b.x, a.x, b.z),
        z: diff_of_products(a.x, b.y, a.y, b.x),
    }
}

impl<T: Copy + Mul<Output = T> + Sub<Output = T>> Cross for Vec3<T> {
    type Output = Self;

    open spec fn obeys_cross_spec() -> bool {
        T::obeys_mul_spec() && T::obeys_sub_spec()
    }

    open spec fn cross_req(&self, other: Self) -> bool {
        &&& diff_of_products_req(self.y, other.z, self.z, other.y)
        &&& diff_of_products_req(self.z, other.x, self.x, other.z)
        &&& diff_of_products_req(self.x, other.y, self.y, other.x)
    }

    open spec fn cross_spec(&self, other: Self) -> Self {
        cross_product(*self, other)
    }

    fn cross(&self, other: Self) -> (r: Self) {
        Vec3::new(
            self.y * other.z - self.z * other.y,
            self.z * other.x - self.x * other.z,
            self.x * other.y - self.y * other.x,
        )
    }
}

/// The Euclidean length of `v`: the square root of its dot product with itself.
pub open spec fn length<T: Scalar>(v: Vec3<T>) -> T {
    sqrt(v.dot(v))
}

/// `v` times the inverse of its length.
pub open spec fn unit<T: Scalar>(v: Vec3<T>) -> Vec3<T> {
    v.scale(num::<T>(1).div_spec(length(v)))
}

/// The length of a value.
pub trait Norm {
    type Output;

    /// Whether `norm` returns what `norm_spec` says.
    spec fn obeys_norm_spec() -> bool;

    /// Whether the length can be computed.
    spec fn norm_req(&self) -> bool;

    /// The length.
    spec fn norm_spec(&self) -> Self::Output;

    fn norm(&self) -> (r: Self::Output)
        requires
            self.norm_req(),
        ensures
            Self::obeys_norm_spec() ==> r == self.norm_spec(),
    ;
}

/// The Euclidean length: the square root of the dot product with itself.
impl<T: Scalar> Norm for Vec3<T> {
    type Output = T;

    open spec fn obeys_norm_spec() -> bool {
        functional::<T>()
    }

    open spec fn norm_req(&self) -> bool {
        total::<T>()
    }

    open spec fn norm_spec(&self) -> T {
        length(*self)
    }

    fn norm(&self) -> (r: T) {
        (self.x * self.x + self.y * self.y + self.z * self.z).sqrt()
    }
}

/// A value scaled to length one.
pub trait Normalize {
    type Output;

    /// Whether `normalize` returns what `normalize_spec` says.
    spec fn obeys_normalize_spec() -> bool;

    /// Whether the value can be scaled.
    spec fn normalize_req(&self) -> bool;

    /// The scaled value.
    spec fn normalize_spec(&self) -> Self::Output;

    fn normalize(&self) -> (r: Self::Output)
        requires
            self.normalize_req(),
        ensures
            Self::obeys_normalize_spec() ==> r == self.normalize_spec(),
    ;
}

/// The vector times the inverse of its length. Nothing is asked of the length:
/// for the zero vector the result is whatever the division by zero gives.
impl<T: Scalar> Normalize for Vec3<T> {
    type Output = Self;

    open spec fn obeys_normalize_spec() -> bool {
        functional::<T>()
    }

    open spec fn normalize_req(&self) -> bool {
        total::<T>()
    }

    open spec fn normalize_spec(&self) -> Self {
        unit(*self)
    }

    fn normalize(&self) -> (r: Self) {
        *self * (T::from_usize(1) / self.norm())
    }
}

} // verus!
