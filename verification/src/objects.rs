//! The shapes of a scene, and how a ray leaves a surface.
use crate::material::Material;
use crate::objects::circular_plane::CircularPlane;
use crate::objects::sphere::Sphere;
use crate::scalar::Scalar;
use crate::scalar::abs;
use crate::scalar::functional;
use crate::scalar::lt;
use crate::scalar::max;
use crate::scalar::min;
use crate::scalar::num;
use crate::scalar::sqrt;
use crate::scalar::total;
use crate::vector::Vec3;
use std::ops::Neg;
use vstd::prelude::*;
use vstd::std_specs::ops::AddSpec;
use vstd::std_specs::ops::DivSpec;
use vstd::std_specs::ops::MulSpec;
use vstd::std_specs::ops::NegSpec;
use vstd::std_specs::ops::SubSpec;

pub mod circular_plane;
pub mod sphere;

verus! {

/// A shape that a ray can hit.
pub trait RayIntersect<T: Scalar> {
    /// Where the ray from `ray_origin` along `ray_dir` meets the shape: the
    /// distance along the ray, the point, and the surface normal there.
    spec fn hit(&self, ray_origin: Vec3<T>, ray_dir: Vec3<T>) -> Option<(T, Vec3<T>, Vec3<T>)>;

    fn ray_intersect(&self, ray_origin: Vec3<T>, ray_dir: Vec3<T>) -> (r: Option<
        (T, Vec3<T>, Vec3<T>),
    >)
        requires
            total::<T>(),
        ensures
            functional::<T>() ==> r == self.hit(ray_origin, ray_dir),
    ;

    /// The material of the shape.
    spec fn material(&self) -> Material<T>;

    fn get_material(&self) -> (m: &Material<T>)
        ensures
            *m == self.material(),
    ;
}

/// A shape of the scene: one of the kinds that the tracer knows.
#[derive(Copy, Clone, Debug, PartialEq)]
pub enum Primitive<T> {
    Sphere(Sphere<T>),
    Disk(CircularPlane<T>),
}

impl<T: Scalar> Primitive<T> {
    /// Where the ray meets the shape, as its kind has it.
    pub open spec fn hit_spec(&self, ray_origin: Vec3<T>, ray_dir: Vec3<T>) -> Option<
        (T, Vec3<T>, Vec3<T>),
    > {
        match *self {
            Primitive::Sphere(s) => s.hit_spec(ray_origin, ray_dir),
            Primitive::Disk(d) => d.hit_spec(ray_origin, ray_dir),
        }
    }

    /// The material of the shape.
    pub open spec fn material_spec(&self) -> Material<T> {
        match *self {
            Primitive::Sphere(s) => s.material,
            Primitive::Disk(d) => d.material,
        }
    }
}

impl<T: Scalar> RayIntersect<T> for Primitive<T> {
    open spec fn hit(&self, ray_origin: Vec3<T>, ray_dir: Vec3<T>) -> Option<(T, Vec3<T>, Vec3<T>)> {
        self.hit_spec(ray_origin, ray_dir)
    }

    fn ray_intersect(&self, ray_origin: Vec3<T>, ray_dir: Vec3<T>) -> (r: Option<
        (T, Vec3<T>, Vec3<T>),
    >) {
        match self {
            Primitive::Sphere(s) => s.ray_intersect(ray_origin, ray_dir),
            Primitive::Disk(d) => d.ray_intersect(ray_origin, ray_dir),
        }
    }

    open spec fn material(&self) -> Material<T> {
        self.material_spec()
    }

    fn get_material(&self) -> (m: &Material<T>) {
        match self {
            Primitive::Sphere(s) => s.get_material(),
            Primitive::Disk(d) => d.get_material(),
        }
    }
}

/// The mirror image of `ray` at a surface with normal `norm`:
/// `ray - norm * 2 * (ray . norm)`.
pub open spec fn reflect_spec<T: Scalar>(ray: Vec3<T>, norm: Vec3<T>) -> Vec3<T> {
    ray.sub_spec(norm.scale(num::<T>(2)).scale(ray.dot(norm)))
}

/// Reflects `ray` at a surface with normal `norm`. Both are taken to be of
/// length one.
pub fn reflect<T: Scalar>(ray: Vec3<T>, norm: Vec3<T>) -> (r: Vec3<T>)
    requires
        total::<T>(),
    ensures
        functional::<T>() ==> r == reflect_spec(ray, norm),
{
    ray - norm * T::from_usize(2) * (ray * norm)
}

/// The cosine of the angle of incidence: minus the dot product of `ray` and
/// `norm`, the product held between -1 and 1.
pub open spec fn incidence_cos<T: Scalar>(ray: Vec3<T>, norm: Vec3<T>) -> T {
    min(max(ray.dot(norm), num::<T>(1).neg_spec()), num::<T>(1)).neg_spec()
}

/// Whether the ray leaves the medium: the cosine of incidence is negative.
pub open spec fn leaves_medium<T: Scalar>(ray: Vec3<T>, norm: Vec3<T>) -> bool {
    lt(incidence_cos(ray, norm), num::<T>(0))
}

/// The ratio of the two indices of refraction, that of air being one: from
/// the medium into air where the ray leaves it, from air into the medium else.
pub open spec fn refraction_ratio<T: Scalar>(ray: Vec3<T>, norm: Vec3<T>, index: T) -> T {
    if leaves_medium(ray, norm) {
        index.div_spec(num::<T>(1))
    } else {
        num::<T>(1).div_spec(index)
    }
}

/// The cosine of incidence taken against the normal on the ray's side.
pub open spec fn oriented_cos<T: Scalar>(ray: Vec3<T>, norm: Vec3<T>) -> T {
    if leaves_medium(ray, norm) {
        abs(incidence_cos(ray, norm))
    } else {
        incidence_cos(ray, norm)
    }
}

/// The normal on the ray's side of the surface.
pub open spec fn oriented_norm<T: Scalar>(ray: Vec3<T>, norm: Vec3<T>) -> Vec3<T> {
    if leaves_medium(ray, norm) {
        norm.neg_spec()
    } else {
        norm
    }
}

/// The discriminant of Snell's law, `1 - ratio^2 * (1 - cos^2)`. Where it is
/// negative the ray is reflected inside the medium and none is refracted.
pub open spec fn refraction_discriminant<T: Scalar>(ray: Vec3<T>, norm: Vec3<T>, index: T) -> T {
    let ratio = refraction_ratio(ray, norm, index);
    let cos = oriented_cos(ray, norm);
    num::<T>(1).sub_spec(
        ratio.mul_spec(ratio).mul_spec(num::<T>(1).sub_spec(cos.mul_spec(cos))),
    )
}

/// The direction of `ray` behind a surface with normal `norm` and index of
/// refraction `index`: `ray * ratio + n * (ratio * cos - sqrt(k))` with the
/// oriented normal `n` and the discriminant `k`, and `ray` itself where `k` is
/// negative.
pub open spec fn refract_spec<T: Scalar>(ray: Vec3<T>, norm: Vec3<T>, index: T) -> Vec3<T> {
    let ratio = refraction_ratio(ray, norm, index);
    let cos = oriented_cos(ray, norm);
    let k = refraction_discriminant(ray, norm, index);
    if lt(k, num::<T>(0)) {
        ray
    } else {
        ray.scale(ratio).add_spec(
            oriented_norm(ray, norm).scale(ratio.mul_spec(cos).sub_spec(sqrt(k))),
        )
    }
}

/// Refracts `ray` at a surface with normal `norm` into a medium of index
/// `refraction_index_obj`, or out of it. Under total internal reflection the
/// ray comes back unchanged.
pub fn refract<T: Scalar>(ray: Vec3<T>, norm: Vec3<T>, refraction_index_obj: T) -> (r: Vec3<T>)
    requires
        total::<T>(),
    ensures
        functional::<T>() ==> r == refract_spec(ray, norm, refraction_index_obj),
        functional::<T>() && lt(
            refraction_discriminant(ray, norm, refraction_index_obj),
            num::<T>(0),
        ) ==> r == ray,
{
    let refraction_index_air = T::from_usize(1);
    let mut cos_alpha = (ray * norm).max(T::from_usize(1).neg()).min(T::from_usize(1)).neg();

    let refraction_ratio;
    let oriented_norm;
    if cos_alpha < T::from_usize(0) {
        cos_alpha = cos_alpha.abs();
        refraction_ratio = refraction_index_obj / refraction_index_air;
        oriented_norm = norm.neg();
    } else {
        refraction_ratio = refraction_index_air / refraction_index_obj;
        oriented_norm = norm;
    }

    let k = T::from_usize(1) - refraction_ratio * refraction_ratio * (T::from_usize(1) - cos_alpha
        * cos_alpha);
    if k < T::from_usize(0) {
        ray
    } else {
        ray * refraction_ratio + oriented_norm * (refraction_ratio * cos_alpha - k.sqrt())
    }
}

} // verus!
