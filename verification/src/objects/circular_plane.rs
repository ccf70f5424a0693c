//! Disks: the part of a plane within a radius of a centre.
use crate::material::Material;
use crate::objects::RayIntersect;
use crate::scalar::Scalar;
use crate::scalar::epsilon;
use crate::scalar::eq;
use crate::scalar::functional;
use crate::scalar::gt;
use crate::scalar::lt;
use crate::scalar::num;
use crate::scalar::total;
use crate::vector::Cross;
use crate::vector::Norm;
use crate::vector::Normalize;
use crate::vector::Vec3;
use crate::vector::cross_product;
use crate::vector::length;
use crate::vector::unit;
use std::ops::Neg;
use vstd::prelude::*;
use vstd::std_specs::ops::AddSpec;
use vstd::std_specs::ops::DivSpec;
use vstd::std_specs::ops::MulSpec;
use vstd::std_specs::ops::NegSpec;
use vstd::std_specs::ops::SubSpec;

verus! {

/// A disk, by its centre, its radius and two vectors that span its plane.
#[derive(Copy, Clone, Debug, PartialEq)]
pub struct CircularPlane<T> {
    pub center: Vec3<T>,
    pub radius: T,
    pub material: Material<T>,
    pub plane_vector_a: Vec3<T>,
    pub plane_vector_b: Vec3<T>,
}

impl<T> CircularPlane<T> {
    pub fn new(
        center: Vec3<T>,
        radius: T,
        material: Material<T>,
        plane_vector_a: Vec3<T>,
        plane_vector_b: Vec3<T>,
    ) -> (p: Self)
        ensures
            p == (CircularPlane { center, radius, material, plane_vector_a, plane_vector_b }),
    {
        Self { center, radius, material, plane_vector_a, plane_vector_b }
    }
}

/// `d`, or the type's epsilon where `d` is zero: a divisor that is never zero.
pub open spec fn divisor<T: Scalar>(d: T) -> T {
    if eq(d, num::<T>(0)) {
        epsilon::<T>()
    } else {
        d
    }
}

impl<T: Scalar> CircularPlane<T> {
    /// The unit normal of the plane: the cross product of the two spanning
    /// vectors, scaled to length one.
    pub open spec fn plane_normal(&self) -> Vec3<T> {
        unit(cross_product(self.plane_vector_a, self.plane_vector_b))
    }

    /// The constant `d` of the plane's equation `a*x + b*y + c*z + d = 0`,
    /// where `(a, b, c)` is the unit normal.
    pub open spec fn plane_offset(&self) -> T {
        let normal = self.plane_normal();
        normal.x.neg_spec().mul_spec(self.center.x).sub_spec(
            normal.y.mul_spec(self.center.y),
        ).sub_spec(normal.z.mul_spec(self.center.z))
    }

    /// Where the line of the ray meets the plane, solved for `z` first, then
    /// `y` from `z`, then `x` from `y`. With the ray from `(x1, y1, z1)` along
    /// `(m, n, k)` and the plane `a*x + b*y + c*z + d = 0`:
    ///
    /// ```text
    /// z = (b*m*n*z1 - b*k*m*y1 - a*k*m*x1 + a*m*m*z1 - d*k*m) / (b*m*n + a*m*m + c*k*m)
    /// y = (k*y1 - n*z1 + n*z) / k
    /// x = (n*x1 - m*y1 + m*y) / n
    /// ```
    ///
    /// A divisor that is zero gives way to the type's epsilon, so a ray along
    /// an axis may get a far-off point in place of the true one.
    pub open spec fn plane_point(&self, o: Vec3<T>, dir: Vec3<T>) -> Vec3<T> {
        let normal = self.plane_normal();
        let (a, b, c) = (normal.x, normal.y, normal.z);
        let d = self.plane_offset();
        let (m, n, k) = (dir.x, dir.y, dir.z);
        let z_denom = b.mul_spec(m).mul_spec(n).add_spec(a.mul_spec(m).mul_spec(m)).add_spec(
            c.mul_spec(k).mul_spec(m),
        );
        let z_num = b.mul_spec(m).mul_spec(n).mul_spec(o.z).sub_spec(
            b.mul_spec(k).mul_spec(m).mul_spec(o.y),
        ).sub_spec(a.mul_spec(k).mul_spec(m).mul_spec(o.x)).add_spec(
            a.mul_spec(m).mul_spec(m).mul_spec(o.z),
        ).sub_spec(d.mul_spec(k).mul_spec(m));
        let z = z_num.div_spec(divisor(z_denom));
        let y = k.mul_spec(o.y).sub_spec(n.mul_spec(o.z)).add_spec(n.mul_spec(z)).div_spec(
            divisor(k),
        );
        let x = n.mul_spec(o.x).sub_spec(m.mul_spec(o.y)).add_spec(m.mul_spec(y)).div_spec(
            divisor(n),
        );
        Vec3 { x, y, z }
    }

    /// Whether `point` of the plane counts as missed: it lies farther from the
    /// centre than the radius, or behind the origin of the ray.
    pub open spec fn misses(&self, o: Vec3<T>, dir: Vec3<T>, point: Vec3<T>) -> bool {
        gt(length(self.center.sub_spec(point)), self.radius) || lt(
            point.sub_spec(o).dot(dir),
            num::<T>(0),
        )
    }

    /// The unit normal turned against the ray.
    pub open spec fn facing_normal(&self, dir: Vec3<T>) -> Vec3<T> {
        let normal = self.plane_normal();
        if gt(normal.dot(dir), num::<T>(0)) {
            normal.neg_spec()
        } else {
            normal
        }
    }
}

impl<T: Scalar> CircularPlane<T> {
    /// The point where the ray's line meets the plane, unless it is missed;
    /// with it the distance from the origin to that point and the plane's
    /// normal on the side that the ray comes from.
    pub open spec fn hit_spec(&self, ray_origin: Vec3<T>, ray_dir: Vec3<T>) -> Option<(T, Vec3<T>, Vec3<T>)> {
        let point = self.plane_point(ray_origin, ray_dir);
        if self.misses(ray_origin, ray_dir, point) {
            None
        } else {
            Some((length(point.sub_spec(ray_origin)), point, self.facing_normal(ray_dir)))
        }
    }
}

impl<T: Scalar> RayIntersect<T> for CircularPlane<T> {
    open spec fn hit(&self, ray_origin: Vec3<T>, ray_dir: Vec3<T>) -> Option<(T, Vec3<T>, Vec3<T>)> {
        self.hit_spec(ray_origin, ray_dir)
    }

    fn ray_intersect(&self, ray_origin: Vec3<T>, ray_dir: Vec3<T>) -> (r: Option<
        (T, Vec3<T>, Vec3<T>),
    >) {
        let norm = self.plane_vector_a.cross(self.plane_vector_b).normalize();

        let a = norm[0];
        let b = norm[1];
        let c = norm[2];
        let d = a.neg() * self.center[0] - b * self.center[1] - c * self.center[2];

        let m = ray_dir[0];
        let n = ray_dir[1];
        let k = ray_dir[2];
        let x1 = ray_origin[0];
        let y1 = ray_origin[1];
        let z1 = ray_origin[2];

        let mut z_denom = b * m * n + a * m * m + c * k * m;
        if z_denom == T::from_usize(0) {
            z_denom = T::epsilon();
        }
        let z = (b * m * n * z1 - b * k * m * y1 - a * k * m * x1 + a * m * m * z1 - d * k * m)
            / z_denom;
        let y = (k * y1 - n * z1 + n * z) / (if k == T::from_usize(0) {
            T::epsilon()
        } else {
            k
        });
        let x = (n * x1 - m * y1 + m * y) / (if n == T::from_usize(0) {
            T::epsilon()
        } else {
            n
        });

        let hit_point = Vec3::new(x, y, z);
        if (self.center - hit_point).norm() > self.radius || (hit_point - ray_origin) * ray_dir
            < T::from_usize(0) {
            None
        } else {
            Some(
                (
                    (hit_point - ray_origin).norm(),
                    hit_point,
                    if norm * ray_dir > T::from_usize(0) {
                        norm.neg()
                    } else {
                        norm
                    },
                ),
            )
        }
    }

    open spec fn material(&self) -> Material<T> {
        self.material
    }

    fn get_material(&self) -> (m: &Material<T>) {
        &self.material
    }
}

} // verus!
