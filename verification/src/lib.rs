//! A recursive ray tracer for scenes of spheres, disks and point lights.
//!
//! A ray is followed to the nearest shape that it hits; the colour there is the
//! weighted sum of the light that reaches the point, of what a mirrored ray
//! sees and of what a refracted ray sees, each followed in turn until
//! [`MAX_DEPTH`] is passed.
//!
//! The tracer computes with any number type that implements
//! [`scalar::Scalar`]. Each function comes with a specification function that
//! says, as a formula over the operations of the number type, what it returns.
//! The contracts promise that result for number types whose operations are
//! functions of their operands ([`scalar::functional`]); what a contract says
//! without that hypothesis holds of every number type. The executable functions
//! ask that the operators of the number type can be applied to any operands
//! ([`scalar::total`]), and then never panic.
use crate::canvas::Canvas;
use crate::canvas::dimensions;
use crate::canvas::grid;
use crate::canvas::new_canvas;
use crate::canvas::pixels;
use crate::canvas::put_pixel;
use crate::light::LightIntensity;
use crate::material::Material;
use crate::objects::Primitive;
use crate::objects::RayIntersect;
use crate::objects::reflect;
use crate::objects::reflect_spec;
use crate::objects::refract;
use crate::objects::refract_spec;
use crate::scalar::Scalar;
use crate::scalar::functional;
use crate::scalar::gt;
use crate::scalar::infinity;
use crate::scalar::lt;
use crate::scalar::min;
use crate::scalar::num;
use crate::scalar::tan;
use crate::scalar::to_u8;
use crate::scalar::total;
use crate::scene::Cam;
use crate::scene::Scene;
use crate::vector::Normalize;
use crate::vector::Vec3;
use crate::vector::unit;
use std::ops::Neg;
use vstd::prelude::*;
use vstd::std_specs::ops::AddSpec;
use vstd::std_specs::ops::DivSpec;
use vstd::std_specs::ops::MulSpec;
use vstd::std_specs::ops::NegSpec;
use vstd::std_specs::ops::SubSpec;

pub mod canvas;
pub mod light;
pub mod material;
pub mod objects;
pub mod scalar;
pub mod scene;
pub mod vector;

verus! {

/// Where a ray meets a shape.
#[derive(Copy, Clone, Debug, PartialEq)]
pub struct RayHitProperties<T> {
    /// Distance from the origin of the ray to the hit.
    pub ray_length: T,
    pub hit_point: Vec3<T>,
    /// The surface normal at the hit.
    pub norm_dir: Vec3<T>,
}

/// The distance that a shape must stay under to replace `best`: that of `best`,
/// or infinity where nothing was hit yet.
pub open spec fn reach<T: Scalar>(best: Option<(int, RayHitProperties<T>)>) -> T {
    match best {
        None => infinity::<T>(),
        Some((_, props)) => props.ray_length,
    }
}

/// The nearest hit of the ray among the first `n` shapes, with the position of
/// the shape. A shape replaces an earlier one only where its hit is strictly
/// nearer, so of two at the same distance the earlier one stays.
pub open spec fn closest_among<T: Scalar>(
    objects: Seq<Primitive<T>>,
    origin: Vec3<T>,
    dir: Vec3<T>,
    n: nat,
) -> Option<(int, RayHitProperties<T>)>
    decreases n,
{
    if n == 0 {
        None
    } else {
        let before = closest_among(objects, origin, dir, (n - 1) as nat);
        match objects[n - 1].hit_spec(origin, dir) {
            Some((ray_length, hit_point, norm_dir)) if lt(ray_length, reach(before)) => Some(
                (n - 1, RayHitProperties { ray_length, hit_point, norm_dir }),
            ),
            _ => before,
        }
    }
}

/// The nearest hit of the ray among all shapes of the scene.
pub open spec fn closest<T: Scalar>(scene: Scene<T>, origin: Vec3<T>, dir: Vec3<T>) -> Option<
    (int, RayHitProperties<T>),
> {
    closest_among(scene.objects@, origin, dir, scene.objects@.len())
}

/// What [`closest_among`] returns is a hit of the shape that it names, and
/// that shape is one of the first `n`.
pub proof fn lemma_closest_is_a_hit<T: Scalar>(
    objects: Seq<Primitive<T>>,
    origin: Vec3<T>,
    dir: Vec3<T>,
    n: nat,
)
    requires
        n <= objects.len(),
    ensures
        closest_among(objects, origin, dir, n) matches Some((k, props)) ==> 0 <= k < n
            && objects[k].hit_spec(origin, dir) == Some(
            (props.ray_length, props.hit_point, props.norm_dir),
        ),
    decreases n,
{
    if n > 0 {
        lemma_closest_is_a_hit(objects, origin, dir, (n - 1) as nat);
    }
}

/// Nothing is returned exactly where no hit of the first `n` shapes lies under
/// infinity.
pub proof fn lemma_closest_none<T: Scalar>(
    objects: Seq<Primitive<T>>,
    origin: Vec3<T>,
    dir: Vec3<T>,
    n: nat,
)
    requires
        n <= objects.len(),
    ensures
        closest_among(objects, origin, dir, n) is None <==> forall|j: int|
            0 <= j < n ==> (#[trigger] objects[j].hit_spec(origin, dir) matches Some((t, _, _))
                ==> !lt(t, infinity::<T>())),
    decreases n,
{
    if n > 0 {
        lemma_closest_none(objects, origin, dir, (n - 1) as nat);
    }
}

/// The earlier shape wins a tie: no shape that stands after the one returned
/// has a hit that is strictly nearer.
pub proof fn lemma_closest_later_is_not_nearer<T: Scalar>(
    objects: Seq<Primitive<T>>,
    origin: Vec3<T>,
    dir: Vec3<T>,
    n: nat,
    j: int,
)
    requires
        n <= objects.len(),
    ensures
        closest_among(objects, origin, dir, n) matches Some((k, props)) ==> (k < j < n
            ==> (objects[j].hit_spec(origin, dir) matches Some((t, _, _)) ==> !lt(
            t,
            props.ray_length,
        ))),
    decreases n,
{
    if n > 0 {
        lemma_closest_later_is_not_nearer(objects, origin, dir, (n - 1) as nat, j);
    }
}

/// The numbers of the set are ordered as distances should be: of two, not each
/// is less than the other, and where `a` is not less than `b` nor `b` less than
/// `c`, `a` is not less than `c`. Floating point numbers are ordered so as long
/// as "not a number" stays out of the set.
pub open spec fn ordered<T: Scalar>(numbers: Set<T>) -> bool {
    &&& forall|a: T, b: T|
        numbers.contains(a) && numbers.contains(b) && #[trigger] lt(a, b) ==> !lt(b, a)
    &&& forall|a: T, b: T, c: T|
        numbers.contains(a) && numbers.contains(b) && numbers.contains(c) && !#[trigger] lt(a, b)
            && !#[trigger] lt(b, c) ==> !lt(a, c)
}

/// Where the distances of the hits are ordered, the hit returned is a nearest
/// one: no hit of the first `n` shapes is strictly nearer. `numbers` holds
/// infinity and the distance of every hit among the first `n` shapes.
pub proof fn lemma_closest_is_nearest<T: Scalar>(
    objects: Seq<Primitive<T>>,
    origin: Vec3<T>,
    dir: Vec3<T>,
    n: nat,
    numbers: Set<T>,
    j: int,
)
    requires
        0 <= j < n <= objects.len(),
        ordered(numbers),
        numbers.contains(infinity::<T>()),
        forall|i: int|
            0 <= i < n ==> (#[trigger] objects[i].hit_spec(origin, dir) matches Some((t, _, _))
                ==> numbers.contains(t)),
    ensures
        objects[j].hit_spec(origin, dir) matches Some((t, _, _)) ==> !lt(
            t,
            reach(closest_among(objects, origin, dir, n)),
        ),
    decreases n,
{
    // The distance to beat is that of a hit, so it is one of `numbers`.
    lemma_closest_is_a_hit(objects, origin, dir, (n - 1) as nat);
    if j < n - 1 {
        lemma_closest_is_nearest(objects, origin, dir, (n - 1) as nat, numbers, j);
    }
}

/// Finds the shape that the ray from `origin` along `dir` hits first, and
/// where. Every shape of the scene is tested, in order.
pub fn intersect_objects<'a, T: Scalar>(origin: Vec3<T>, dir: Vec3<T>, scene: &'a Scene<T>) -> (r:
    Option<(&'a Primitive<T>, RayHitProperties<T>)>)
    requires
        total::<T>(),
    ensures
        functional::<T>() ==> (r is None <==> closest(*scene, origin, dir) is None),
        functional::<T>() ==> (closest(*scene, origin, dir) matches Some((k, props)) ==> r == Some(
            (&scene.objects@[k], props),
        )),
        scene.objects.len() == 0 ==> r is None,
        r matches Some((obj, _)) ==> exists|k: int|
            0 <= k < scene.objects.len() && *obj == #[trigger] scene.objects@[k],
{
    let mut closest_intersection = T::infinity();
    let mut found: Option<(&Primitive<T>, RayHitProperties<T>)> = None;
    let ghost mut best: Option<(int, RayHitProperties<T>)> = None;

    let mut i: usize = 0;
    while i < scene.objects.len()
        invariant
            total::<T>(),
            i <= scene.objects.len(),
            functional::<T>() ==> best == closest_among(scene.objects@, origin, dir, i as nat),
            functional::<T>() ==> closest_intersection == reach(best),
            (best is None) == (found is None),
            best matches Some((k, props)) ==> 0 <= k < i && found == Some(
                (&scene.objects@[k], props),
            ),
        decreases scene.objects.len() - i,
    {
        let obj = &scene.objects[i];
        if let Some((intersection, hit_point, norm_dir)) = obj.ray_intersect(origin, dir) {
            if intersection < closest_intersection {
                closest_intersection = intersection;
                let props = RayHitProperties { ray_length: intersection, hit_point, norm_dir };
                found = Some((obj, props));
                proof {
                    best = Some((i as int, props));
                }
            }
        }
        i += 1;
    }

    found
}

/// The deepest level of mirrored and refracted rays that is still traced. The
/// ray from the camera is at level 0.
pub const MAX_DEPTH: usize = 4;

/// The distance by which the origin of a new ray is moved off the surface, so
/// that the ray does not hit the surface it starts from: a thousandth.
pub open spec fn eps_spec<T: Scalar>() -> T {
    num::<T>(1).div_spec(num::<T>(1000))
}

/// Computes the distance by which the origin of a new ray is moved off the
/// surface.
pub fn eps<T: Scalar>() -> (r: T)
    requires
        total::<T>(),
    ensures
        functional::<T>() ==> r == eps_spec::<T>(),
{
    T::from_usize(1) / T::from_usize(1000)
}

/// The hit point moved off the surface along the normal.
pub open spec fn lifted<T: Scalar>(props: RayHitProperties<T>) -> Vec3<T> {
    props.hit_point.add_spec(props.norm_dir.scale(eps_spec::<T>()))
}

/// The hit point moved off the surface against the normal.
pub open spec fn sunk<T: Scalar>(props: RayHitProperties<T>) -> Vec3<T> {
    props.hit_point.sub_spec(props.norm_dir.scale(eps_spec::<T>()))
}

/// The light that reaches a point of a surface.
#[derive(Copy, Clone, Debug, PartialEq)]
pub struct Lighting<T> {
    /// Sum of the diffuse light of the lights that reach the point.
    pub diffuse: T,
    /// Sum of their specular light.
    pub specular: T,
    /// Their colours: summed while the lights are gone through, and in the
    /// end divided by the number of all lights of the scene.
    pub color: Vec3<T>,
}

/// The light of the first `n` lights of the scene at a hit on `obj`, seen
/// along `dir`. A light counts unless the hit point, moved off the surface,
/// lies in a shadow.
pub open spec fn lighting_among<T: Scalar>(
    scene: Scene<T>,
    props: RayHitProperties<T>,
    obj: Primitive<T>,
    dir: Vec3<T>,
    n: nat,
) -> Lighting<T>
    decreases n,
{
    if n == 0 {
        Lighting {
            diffuse: num::<T>(0),
            specular: num::<T>(0),
            color: Vec3 { x: num::<T>(0), y: num::<T>(0), z: num::<T>(0) },
        }
    } else {
        let before = lighting_among(scene, props, obj, dir, (n - 1) as nat);
        let light = scene.lights@[n - 1];
        if light.shadowed_spec(lifted(props), scene) {
            before
        } else {
            Lighting {
                diffuse: before.diffuse.add_spec(
                    light.diffuse_spec(props.hit_point, props.norm_dir),
                ),
                specular: before.specular.add_spec(
                    light.specular_spec(
                        props.hit_point,
                        props.norm_dir,
                        obj.material_spec().specular_exponent,
                        dir,
                    ),
                ),
                color: before.color.add_spec(light.color),
            }
        }
    }
}

/// The light of all lights of the scene at a hit on `obj`, seen along `dir`:
/// the sums of diffuse and specular light, and the sum of the colours times the
/// inverse of the number of lights. The colour is divided by the number of all
/// lights, not of those that reach the point.
pub open spec fn illuminate_spec<T: Scalar>(
    scene: Scene<T>,
    props: RayHitProperties<T>,
    obj: Primitive<T>,
    dir: Vec3<T>,
) -> Lighting<T> {
    let sums = lighting_among(scene, props, obj, dir, scene.lights@.len());
    Lighting {
        diffuse: sums.diffuse,
        specular: sums.specular,
        color: sums.color.scale(num::<T>(1).div_spec(num::<T>(scene.lights.len()))),
    }
}

/// Gathers the light that reaches the hit `props` on `obj`, for a ray that
/// came along `dir`.
pub fn illuminate<T: Scalar>(
    scene: &Scene<T>,
    props: RayHitProperties<T>,
    obj: &Primitive<T>,
    dir: Vec3<T>,
) -> (r: Lighting<T>)
    requires
        total::<T>(),
    ensures
        functional::<T>() ==> r == illuminate_spec(*scene, props, *obj, dir),
{
    let mut diffuse_light_intensity = T::from_usize(0);
    let mut specular_light_intensity = T::from_usize(0);
    let mut total_light_color = Vec3::new(T::from_usize(0), T::from_usize(0), T::from_usize(0));

    let mut i: usize = 0;
    while i < scene.lights.len()
        invariant
            total::<T>(),
            i <= scene.lights.len(),
            functional::<T>() ==> (Lighting {
                diffuse: diffuse_light_intensity,
                specular: specular_light_intensity,
                color: total_light_color,
            }) == lighting_among(*scene, props, *obj, dir, i as nat),
        decreases scene.lights.len() - i,
    {
        let light = &scene.lights[i];
        i += 1;
        if light.is_in_shadow(props.hit_point + props.norm_dir * eps::<T>(), scene) {
            continue ;
        }
        diffuse_light_intensity = diffuse_light_intensity + light.get_diffuse_light_intensity(
            props.hit_point,
            props.norm_dir,
        );
        specular_light_intensity = specular_light_intensity + light.get_specular_light_intensity(
            props.hit_point,
            props.norm_dir,
            obj,
            dir,
        );
        total_light_color = total_light_color + light.get_light_color();
    }

    total_light_color = total_light_color * (T::from_usize(1) / T::from_usize(scene.lights.len()));

    Lighting {
        diffuse: diffuse_light_intensity,
        specular: specular_light_intensity,
        color: total_light_color,
    }
}

/// The colour of a surface point: the plain sum of the diffuse colour times
/// the diffuse light, the colour of the lights times the specular light, the
/// mirrored colour and the refracted colour, each times its weight in the
/// material. Nothing holds the sum between 0 and 1.
pub open spec fn blend_spec<T: Scalar>(
    material: Material<T>,
    light: Lighting<T>,
    reflect_color: Vec3<T>,
    refract_color: Vec3<T>,
) -> Vec3<T> {
    material.diffuse_color.scale(light.diffuse).scale(material.diffuse_albedo).add_spec(
        light.color.scale(light.specular).scale(material.specular_albedo),
    ).add_spec(reflect_color.scale(material.reflective_albedo)).add_spec(
        refract_color.scale(material.refractive_albedo),
    )
}

/// Puts the colour of a surface point together from the light that reaches it
/// and the colours that the mirrored and the refracted ray brought back.
pub fn blend<T: Scalar>(
    material: &Material<T>,
    light: Lighting<T>,
    reflect_color: Vec3<T>,
    refract_color: Vec3<T>,
) -> (r: Vec3<T>)
    requires
        total::<T>(),
    ensures
        functional::<T>() ==> r == blend_spec(*material, light, reflect_color, refract_color),
{
    material.diffuse_color * light.diffuse * material.diffuse_albedo + light.color * light.specular
        * material.specular_albedo + reflect_color * material.reflective_albedo + refract_color
        * material.refractive_albedo
}

/// Where the refracted ray starts: off the surface on the side that
/// `refract_dir` points to.
pub open spec fn refract_origin_spec<T: Scalar>(
    props: RayHitProperties<T>,
    refract_dir: Vec3<T>,
) -> Vec3<T> {
    if gt(refract_dir.dot(props.norm_dir), num::<T>(0)) {
        lifted(props)
    } else {
        sunk(props)
    }
}

/// The colour that the ray from `origin` along `dir` sees at level `depth`:
/// the background past [`MAX_DEPTH`] or where nothing is hit, else the blend at
/// the nearest hit, with the mirrored and the refracted ray traced one level
/// deeper.
pub open spec fn trace_spec<T: Scalar>(
    origin: Vec3<T>,
    dir: Vec3<T>,
    scene: Scene<T>,
    depth: nat,
) -> Vec3<T>
    decreases MAX_DEPTH + 1 - depth,
{
    if depth > MAX_DEPTH {
        scene.background_color
    } else {
        match closest(scene, origin, dir) {
            None => scene.background_color,
            Some((k, props)) => {
                let obj = scene.objects@[k];
                let reflect_dir = unit(reflect_spec(dir, props.norm_dir));
                let refract_dir = unit(
                    refract_spec(dir, props.norm_dir, obj.material_spec().refractive_index),
                );
                blend_spec(
                    obj.material_spec(),
                    illuminate_spec(scene, props, obj, dir),
                    trace_spec(lifted(props), reflect_dir, scene, depth + 1),
                    trace_spec(refract_origin_spec(props, refract_dir), refract_dir, scene, depth + 1),
                )
            },
        }
    }
}

/// Past the depth limit a ray sees the background, whatever the scene holds.
pub proof fn lemma_trace_past_max_depth<T: Scalar>(
    origin: Vec3<T>,
    dir: Vec3<T>,
    scene: Scene<T>,
    depth: nat,
)
    requires
        depth > MAX_DEPTH,
    ensures
        trace_spec(origin, dir, scene, depth) == scene.background_color,
{
}

/// A ray that hits no shape sees the background at every depth.
pub proof fn lemma_trace_without_hit<T: Scalar>(
    origin: Vec3<T>,
    dir: Vec3<T>,
    scene: Scene<T>,
    depth: nat,
)
    requires
        closest(scene, origin, dir) is None,
    ensures
        trace_spec(origin, dir, scene, depth) == scene.background_color,
{
}

/// In a scene without shapes every ray sees the background at every depth.
pub proof fn lemma_trace_empty_scene<T: Scalar>(
    origin: Vec3<T>,
    dir: Vec3<T>,
    scene: Scene<T>,
    depth: nat,
)
    requires
        scene.objects@.len() == 0,
    ensures
        trace_spec(origin, dir, scene, depth) == scene.background_color,
{
}

/// Traces the ray from `origin` along `dir` through the scene at level
/// `depth` and returns the colour that it sees.
pub fn ray_trace<T: Scalar>(origin: Vec3<T>, dir: Vec3<T>, scene: &Scene<T>, depth: usize) -> (r:
    Vec3<T>)
    requires
        total::<T>(),
    ensures
        functional::<T>() ==> r == trace_spec(origin, dir, *scene, depth as nat),
        depth > MAX_DEPTH ==> r == scene.background_color,
        scene.objects.len() == 0 ==> r == scene.background_color,
        functional::<T>() && closest(*scene, origin, dir) is None ==> r == scene.background_color,
    decreases MAX_DEPTH + 1 - depth,
{
    if depth > MAX_DEPTH {
        return scene.background_color;
    }
    match intersect_objects(origin, dir, scene) {
        None => scene.background_color,
        Some((obj, props)) => {
            let light = illuminate(scene, props, obj, dir);

            let reflect_color = ray_trace(
                props.hit_point + props.norm_dir * eps::<T>(),
                reflect(dir, props.norm_dir).normalize(),
                scene,
                depth + 1,
            );
            let refract_dir = refract(
                dir,
                props.norm_dir,
                obj.get_material().refractive_index,
            ).normalize();
            let refract_color = ray_trace(
                if refract_dir * props.norm_dir > T::from_usize(0) {
                    props.hit_point + props.norm_dir * eps::<T>()
                } else {
                    props.hit_point - props.norm_dir * eps::<T>()
                },
                refract_dir,
                scene,
                depth + 1,
            );

            blend(obj.get_material(), light, reflect_color, refract_color)
        },
    }
}

/// How far the middle of pixel `i` of `n` lies from the middle of the picture,
/// from -1 at one edge to 1 at the other: `2 * (i + 0.5) / n - 1`.
pub open spec fn pixel_offset<T: Scalar>(i: usize, n: usize) -> T {
    num::<T>(2).mul_spec(num::<T>(i).add_spec(num::<T>(1).div_spec(num::<T>(2)))).div_spec(
        num::<T>(n),
    ).sub_spec(num::<T>(1))
}

/// The direction of the ray from the camera through the middle of the pixel in
/// column `i` and row `j`: the direction of the camera plus `(x, y, 0)`, scaled
/// to length one. `x` is the offset of the column times the tangent of half the
/// field of view times the ratio of width to height, `y` the negated offset of
/// the row times that tangent: row 0 is the top row.
pub open spec fn primary_ray_dir_spec<T: Scalar>(cam: Cam<T>, i: usize, j: usize) -> Vec3<T> {
    let spread = tan(cam.fov.div_spec(num::<T>(2)));
    let x = pixel_offset::<T>(i, cam.width).mul_spec(spread).mul_spec(num::<T>(cam.width)).div_spec(
        num::<T>(cam.height),
    );
    let y = pixel_offset::<T>(j, cam.height).neg_spec().mul_spec(spread);
    unit(cam.dir.add_spec(Vec3 { x, y, z: num::<T>(0) }))
}

/// Computes the direction of the ray from the camera through the pixel in
/// column `i` and row `j`.
pub fn primary_ray_dir<T: Scalar>(cam: &Cam<T>, i: usize, j: usize) -> (r: Vec3<T>)
    requires
        total::<T>(),
    ensures
        functional::<T>() ==> r == primary_ray_dir_spec(*cam, i, j),
{
    let x = (T::from_usize(2) * (T::from_usize(i) + T::from_usize(1) / T::from_usize(2))
        / T::from_usize(cam.width) - T::from_usize(1)) * (cam.fov / T::from_usize(2)).tan()
        * T::from_usize(cam.width) / T::from_usize(cam.height);
    let y = (T::from_usize(2) * (T::from_usize(j) + T::from_usize(1) / T::from_usize(2))
        / T::from_usize(cam.height) - T::from_usize(1)).neg() * (cam.fov / T::from_usize(2)).tan();

    (cam.dir + Vec3::new(x, y, T::from_usize(0))).normalize()
}

/// One channel of a colour as a byte: the channel, or one where it is more,
/// times 255, cut down to a whole number.
pub open spec fn channel_spec<T: Scalar>(c: T) -> u8 {
    to_u8(min(c, num::<T>(1)).mul_spec(num::<T>(255)))
}

/// A colour as the three bytes of a pixel.
pub open spec fn to_rgb_spec<T: Scalar>(color: Vec3<T>) -> Seq<u8> {
    seq![channel_spec(color.x), channel_spec(color.y), channel_spec(color.z)]
}

/// Turns a colour into the three bytes of a pixel.
pub fn to_rgb<T: Scalar>(color: Vec3<T>) -> (r: [u8; 3])
    requires
        total::<T>(),
    ensures
        functional::<T>() ==> r@ == to_rgb_spec(color),
{
    [
        (color.x.min(T::from_usize(1)) * T::from_usize(255)).to_u8(),
        (color.y.min(T::from_usize(1)) * T::from_usize(255)).to_u8(),
        (color.z.min(T::from_usize(1)) * T::from_usize(255)).to_u8(),
    ]
}

/// The bytes of the pixel in column `i` and row `j` of the picture of `scene`.
pub open spec fn pixel_spec<T: Scalar>(scene: Scene<T>, i: usize, j: usize) -> Seq<u8> {
    to_rgb_spec(trace_spec(scene.cam.pos, primary_ray_dir_spec(scene.cam, i, j), scene, 0))
}

/// Renders the scene: every pixel of a picture of the camera's width and
/// height gets the colour that the ray from the camera through its middle sees.
pub fn render<T: Scalar>(scene: &Scene<T>) -> (img: Canvas)
    requires
        total::<T>(),
        scene.cam.width <= u32::MAX,
        scene.cam.height <= u32::MAX,
        3 * scene.cam.width * scene.cam.height <= isize::MAX,
    ensures
        dimensions(img) == (scene.cam.width as u32, scene.cam.height as u32),
        pixels(img).dom() == grid(scene.cam.width as int, scene.cam.height as int),
        functional::<T>() ==> forall|i: usize, j: usize|
            i < scene.cam.width && j < scene.cam.height ==> #[trigger] pixels(img)[(
                i as int,
                j as int,
            )] == pixel_spec(*scene, i, j),
{
    let width = scene.cam.width;
    let height = scene.cam.height;
    let mut result = new_canvas(width as u32, height as u32);

    let mut j: usize = 0;
    while j < height
        invariant
            total::<T>(),
            width == scene.cam.width,
            height == scene.cam.height,
            width <= u32::MAX,
            height <= u32::MAX,
            j <= height,
            dimensions(result) == (width as u32, height as u32),
            pixels(result).dom() == grid(width as int, height as int),
            functional::<T>() ==> forall|a: usize, b: usize|
                a < width && b < j ==> #[trigger] pixels(result)[(a as int, b as int)]
                    == pixel_spec(*scene, a, b),
        decreases height - j,
    {
        let mut i: usize = 0;
        while i < width
            invariant
                total::<T>(),
                width == scene.cam.width,
                height == scene.cam.height,
                width <= u32::MAX,
                height <= u32::MAX,
                j < height,
                i <= width,
                dimensions(result) == (width as u32, height as u32),
                pixels(result).dom() == grid(width as int, height as int),
                functional::<T>() ==> forall|a: usize, b: usize|
                    a < width && (b < j || (b == j && a < i)) ==> #[trigger] pixels(result)[(
                        a as int,
                        b as int,
                    )] == pixel_spec(*scene, a, b),
            decreases width - i,
        {
            let ray_dir = primary_ray_dir(&scene.cam, i, j);
            let color = to_rgb(ray_trace(scene.cam.pos, ray_dir, scene, 0));
            put_pixel(&mut result, i as u32, j as u32, color);
            i += 1;
        }
        j += 1;
    }

    result
}

/// The picture of a scene without shapes shows the background in every pixel.
pub proof fn lemma_picture_of_empty_scene<T: Scalar>(scene: Scene<T>, i: usize, j: usize)
    requires
        scene.objects@.len() == 0,
    ensures
        pixel_spec(scene, i, j) == to_rgb_spec(scene.background_color),
{
    lemma_trace_empty_scene(scene.cam.pos, primary_ray_dir_spec(scene.cam, i, j), scene, 0);
}

} // verus!
