//! Point lights and what they add to the colour of a surface point.
use crate::closest;
use crate::intersect_objects;
use crate::objects::Primitive;
use crate::objects::RayIntersect;
use crate::objects::reflect;
use crate::objects::reflect_spec;
use crate::scalar::Scalar;
use crate::scalar::functional;
use crate::scalar::lt;
use crate::scalar::max;
use crate::scalar::num;
use crate::scalar::powf;
use crate::scalar::total;
use crate::scene::Scene;
use crate::vector::Norm;
use crate::vector::Normalize;
use crate::vector::Vec3;
use crate::vector::length;
use crate::vector::unit;
use vstd::prelude::*;
use vstd::std_specs::ops::MulSpec;
use vstd::std_specs::ops::SubSpec;

verus! {

/// A light at a point, shining alike in all directions.
#[derive(Copy, Clone, Debug, PartialEq)]
pub struct Point<T> {
    pub position: Vec3<T>,
    pub intensity: T,
    pub color: Vec3<T>,
}

impl<T> Point<T> {
    pub fn new(position: Vec3<T>, intensity: T, color: Vec3<T>) -> (p: Self)
        ensures
            p == (Point { position, intensity, color }),
    {
        Self { position, intensity, color }
    }
}

impl<T: Scalar> Point<T> {
    /// The unit vector from `point` to the light.
    pub open spec fn toward(&self, point: Vec3<T>) -> Vec3<T> {
        unit(self.position.sub_spec(point))
    }

    /// The diffuse light at `point` on a surface with normal `norm`: the
    /// intensity times the cosine of the angle between the normal and the way
    /// to the light, or zero where the light stands behind the surface.
    pub open spec fn diffuse_spec(&self, point: Vec3<T>, norm: Vec3<T>) -> T {
        self.intensity.mul_spec(max(self.toward(point).dot(norm), num::<T>(0)))
    }

    /// The specular light at `point` seen along `ray_dir`: the cosine of the
    /// angle between `ray_dir` and the mirrored way to the light, or zero where
    /// it is negative, raised to `exponent`, times the intensity.
    pub open spec fn specular_spec(
        &self,
        point: Vec3<T>,
        norm_dir: Vec3<T>,
        exponent: T,
        ray_dir: Vec3<T>,
    ) -> T {
        powf(
            max(reflect_spec(self.toward(point), norm_dir).dot(ray_dir), num::<T>(0)),
            exponent,
        ).mul_spec(self.intensity)
    }

    /// Whether a shape of `scene` stands between `point` and the light: the ray
    /// from `point` toward the light hits one at a distance less than that of
    /// the light.
    pub open spec fn shadowed_spec(&self, point: Vec3<T>, scene: Scene<T>) -> bool {
        match closest(scene, point, self.toward(point)) {
            None => false,
            Some((_, props)) => lt(props.ray_length, length(self.position.sub_spec(point))),
        }
    }
}

/// A light of the scene.
pub trait LightIntensity<T: Scalar> {
    /// The diffuse light that reaches `point` on a surface with normal `norm_dir`.
    spec fn diffuse(&self, point: Vec3<T>, norm_dir: Vec3<T>) -> T;

    fn get_diffuse_light_intensity(&self, point: Vec3<T>, norm_dir: Vec3<T>) -> (r: T)
        requires
            total::<T>(),
        ensures
            functional::<T>() ==> r == self.diffuse(point, norm_dir),
    ;

    /// The specular light that `obj` sends from `point` along `ray_dir`.
    spec fn specular(
        &self,
        point: Vec3<T>,
        norm_dir: Vec3<T>,
        obj: Primitive<T>,
        ray_dir: Vec3<T>,
    ) -> T;

    fn get_specular_light_intensity(
        &self,
        point: Vec3<T>,
        norm_dir: Vec3<T>,
        obj: &Primitive<T>,
        ray_dir: Vec3<T>,
    ) -> (r: T)
        requires
            total::<T>(),
        ensures
            functional::<T>() ==> r == self.specular(point, norm_dir, *obj, ray_dir),
    ;

    /// Whether `point` lies in the shadow of a shape of `scene`.
    spec fn shadowed(&self, point: Vec3<T>, scene: Scene<T>) -> bool;

    fn is_in_shadow(&self, point: Vec3<T>, scene: &Scene<T>) -> (r: bool)
        requires
            total::<T>(),
        ensures
            functional::<T>() ==> r == self.shadowed(point, *scene),
            scene.objects.len() == 0 ==> !r,
    ;

    /// The colour of the light.
    spec fn light_color(&self) -> Vec3<T>;

    fn get_light_color(&self) -> (c: Vec3<T>)
        ensures
            c == self.light_color(),
    ;
}

impl<T: Scalar> LightIntensity<T> for Point<T> {
    open spec fn diffuse(&self, point: Vec3<T>, norm_dir: Vec3<T>) -> T {
        self.diffuse_spec(point, norm_dir)
    }

    fn get_diffuse_light_intensity(&self, point: Vec3<T>, norm: Vec3<T>) -> (r: T) {
        let point_to_light = (self.position - point).normalize();

        self.intensity * (point_to_light * norm).max(T::from_usize(0))
    }

    open spec fn specular(
        &self,
        point: Vec3<T>,
        norm_dir: Vec3<T>,
        obj: Primitive<T>,
        ray_dir: Vec3<T>,
    ) -> T {
        self.specular_spec(point, norm_dir, obj.material_spec().specular_exponent, ray_dir)
    }

    fn get_specular_light_intensity(
        &self,
        point: Vec3<T>,
        norm_dir: Vec3<T>,
        obj: &Primitive<T>,
        ray_dir: Vec3<T>,
    ) -> (r: T) {
        let point_to_light = (self.position - point).normalize();

        (reflect(point_to_light, norm_dir) * ray_dir).max(T::from_usize(0)).powf(
            obj.get_material().specular_exponent,
        ) * self.intensity
    }

    open spec fn shadowed(&self, point: Vec3<T>, scene: Scene<T>) -> bool {
        self.shadowed_spec(point, scene)
    }

    fn is_in_shadow(&self, point: Vec3<T>, scene: &Scene<T>) -> (r: bool) {
        match intersect_objects(point, (self.position - point).normalize(), scene) {
            None => false,
            Some((_, props)) => props.ray_length < (self.position - point).norm(),
        }
    }

    open spec fn light_color(&self) -> Vec3<T> {
        self.color
    }

    fn get_light_color(&self) -> (c: Vec3<T>) {
        self.color
    }
}

} // verus!
