//! Spheres.
use crate::material::Material;
use crate::objects::RayIntersect;
use crate::scalar::Scalar;
use crate::scalar::functional;
use crate::scalar::gt;
use crate::scalar::num;
use crate::scalar::sqrt;
use crate::scalar::total;
use crate::vector::Normalize;
use crate::vector::Vec3;
use crate::vector::unit;
use vstd::prelude::*;
use vstd::std_specs::ops::AddSpec;
use vstd::std_specs::ops::MulSpec;
use vstd::std_specs::ops::SubSpec;

verus! {

/// A sphere, by its centre and radius.
#[derive(Copy, Clone, Debug, PartialEq)]
pub struct Sphere<T> {
    pub center: Vec3<T>,
    pub radius: T,
    pub material: Material<T>,
}

impl<T> Sphere<T> {
    pub fn new(center: Vec3<T>, radius: T, material: Material<T>) -> (s: Self)
        ensures
            s == (Sphere { center, radius, material }),
    {
        Self { center, radius, material }
    }
}

impl<T: Scalar> Sphere<T> {
    /// The length of the projection of the way from `ray_origin` to the centre
    /// onto the ray.
    pub open spec fn projection(&self, ray_origin: Vec3<T>, ray_dir: Vec3<T>) -> T {
        self.center.sub_spec(ray_origin).dot(ray_dir)
    }

    /// The square of the distance from the centre to the line of the ray.
    pub open spec fn distance_squared(&self, ray_origin: Vec3<T>, ray_dir: Vec3<T>) -> T {
        let to_center = self.center.sub_spec(ray_origin);
        let along = self.projection(ray_origin, ray_dir);
        to_center.dot(to_center).sub_spec(along.mul_spec(along))
    }

    /// Half the length of the part of the ray's line that lies in the sphere.
    pub open spec fn half_chord(&self, ray_origin: Vec3<T>, ray_dir: Vec3<T>) -> T {
        sqrt(self.radius.mul_spec(self.radius).sub_spec(self.distance_squared(ray_origin, ray_dir)))
    }

    /// The hit at distance `t` along the ray: the distance, the point there,
    /// and the unit vector from the centre to that point.
    pub open spec fn hit_at(&self, ray_origin: Vec3<T>, ray_dir: Vec3<T>, t: T) -> (T, Vec3<T>, Vec3<T>) {
        let point = ray_origin.add_spec(ray_dir.scale(t));
        (t, point, unit(point.sub_spec(self.center)))
    }
}

impl<T: Scalar> Sphere<T> {
    /// No hit where the line of the ray passes the centre farther than the
    /// radius. Else the nearer of the two crossings if it lies ahead of the
    /// origin, else the farther one if that lies ahead (the origin is inside),
    /// else none. `ray_dir` is taken to be of length one. The normal points
    /// from the centre to the hit, also where the origin is inside.
    pub open spec fn hit_spec(&self, ray_origin: Vec3<T>, ray_dir: Vec3<T>) -> Option<(T, Vec3<T>, Vec3<T>)> {
        let along = self.projection(ray_origin, ray_dir);
        let half = self.half_chord(ray_origin, ray_dir);
        if gt(self.distance_squared(ray_origin, ray_dir), self.radius.mul_spec(self.radius)) {
            None
        } else if gt(along.sub_spec(half), num::<T>(0)) {
            Some(self.hit_at(ray_origin, ray_dir, along.sub_spec(half)))
        } else if gt(along.add_spec(half), num::<T>(0)) {
            Some(self.hit_at(ray_origin, ray_dir, along.add_spec(half)))
        } else {
            None
        }
    }
}

impl<T: Scalar> RayIntersect<T> for Sphere<T> {
    open spec fn hit(&self, ray_origin: Vec3<T>, ray_dir: Vec3<T>) -> Option<(T, Vec3<T>, Vec3<T>)> {
        self.hit_spec(ray_origin, ray_dir)
    }

    fn ray_intersect(&self, ray_origin: Vec3<T>, ray_dir: Vec3<T>) -> (r: Option<
        (T, Vec3<T>, Vec3<T>),
    >) {
        let cam_to_center = self.center - ray_origin;
        let directed_cam_to_center = cam_to_center * ray_dir;
        let center_to_ray_distance_squared = cam_to_center * cam_to_center - directed_cam_to_center
            * directed_cam_to_center;
        if center_to_ray_distance_squared > self.radius * self.radius {
            return None;
        }
        let intersected_ray_part_half_length = (self.radius * self.radius
            - center_to_ray_distance_squared).sqrt();
        let cam_to_intersect_length_in = directed_cam_to_center - intersected_ray_part_half_length;
        let cam_to_intersect_length_out = directed_cam_to_center + intersected_ray_part_half_length;
        if cam_to_intersect_length_in > T::from_usize(0) {
            let hit_point = ray_origin + ray_dir * cam_to_intersect_length_in;
            Some((cam_to_intersect_length_in, hit_point, (hit_point - self.center).normalize()))
        } else if cam_to_intersect_length_out > T::from_usize(0) {
            let hit_point = ray_origin + ray_dir * cam_to_intersect_length_out;
            Some((cam_to_intersect_length_out, hit_point, (hit_point - self.center).normalize()))
        } else {
            None
        }
    }

    open spec fn material(&self) -> Material<T> {
        self.material
    }

    fn get_material(&self) -> (m: &Material<T>) {
        &self.material
    }
}

} // verus!
