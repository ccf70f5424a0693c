//! What is rendered: the camera, the shapes and the lights.
use crate::light::Point;
use crate::objects::Primitive;
use crate::vector::Vec3;
use vstd::prelude::*;

verus! {

/// A scene. It is built once and only read while it is rendered.
pub struct Scene<T> {
    pub cam: Cam<T>,
    /// The colour of a ray that hits nothing.
    pub background_color: Vec3<T>,
    /// The shapes, in the order in which a ray is tested against them.
    pub objects: Vec<Primitive<T>>,
    /// The lights, in the order in which their light is summed.
    pub lights: Vec<Point<T>>,
}

/// A pinhole camera.
pub struct Cam<T> {
    /// Width of the picture in pixels.
    pub width: usize,
    /// Height of the picture in pixels.
    pub height: usize,
    /// Field of view in radians, between 0 and pi.
    pub fov: T,
    pub pos: Vec3<T>,
    /// The direction in which the camera looks.
    pub dir: Vec3<T>,
}

} // verus!
