//! Surface materials.
use crate::vector::Vec3;
use vstd::prelude::*;

verus! {

/// How a surface answers light. The four weights are independent: the colour
/// of a point is their plain weighted sum, and nothing makes them add up to one.
#[derive(Copy, Clone, Debug, PartialEq)]
pub struct Material<T> {
    /// Colour of the diffuse part, each component from 0 to 1.
    pub diffuse_color: Vec3<T>,
    /// Weight of the diffuse part.
    pub diffuse_albedo: T,
    /// Exponent of the specular highlight.
    pub specular_exponent: T,
    /// Weight of the specular part.
    pub specular_albedo: T,
    /// Weight of the reflected colour.
    pub reflective_albedo: T,
    /// Index of refraction of the medium behind the surface.
    pub refractive_index: T,
    /// Weight of the refracted colour.
    pub refractive_albedo: T,
}

} // verus!
