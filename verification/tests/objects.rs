use raytracer::material::Material;
use raytracer::objects::circular_plane::CircularPlane;
use raytracer::objects::reflect;
use raytracer::objects::refract;
use raytracer::objects::sphere::Sphere;
use raytracer::objects::Primitive;
use raytracer::objects::RayIntersect;
use raytracer::vector::Norm;
use raytracer::vector::Normalize;
use raytracer::vector::Vec3;
use raytracer::scalar::Scalar;
use std::ops::Add;
use std::ops::Div;
use std::ops::Mul;
use std::ops::Neg;
use std::ops::Sub;

/// Double precision numbers as the number type of the tracer.
#[derive(Debug, Clone, Copy, PartialEq, PartialOrd)]
struct Num(f64);

impl Add for Num {
    type Output = Num;
    fn add(self, other: Num) -> Num {
        Num(self.0 + other.0)
    }
}

impl Sub for Num {
    type Output = Num;
    fn sub(self, other: Num) -> Num {
        Num(self.0 - other.0)
    }
}

impl Mul for Num {
    type Output = Num;
    fn mul(self, other: Num) -> Num {
        Num(self.0 * other.0)
    }
}

impl Div for Num {
    type Output = Num;
    fn div(self, other: Num) -> Num {
        Num(self.0 / other.0)
    }
}

impl Neg for Num {
    type Output = Num;
    fn neg(self) -> Num {
        Num(-self.0)
    }
}

impl Scalar for Num {
    fn from_usize(n: usize) -> Num {
        Num(n as f64)
    }
    fn epsilon() -> Num {
        Num(f64::EPSILON)
    }
    fn infinity() -> Num {
        Num(f64::INFINITY)
    }
    fn sqrt(self) -> Num {
        Num(self.0.sqrt())
    }
    fn tan(self) -> Num {
        Num(self.0.tan())
    }
    fn abs(self) -> Num {
        Num(self.0.abs())
    }
    fn powf(self, exponent: Num) -> Num {
        Num(self.0.powf(exponent.0))
    }
    fn max(self, other: Num) -> Num {
        Num(self.0.max(other.0))
    }
    fn min(self, other: Num) -> Num {
        Num(self.0.min(other.0))
    }
    fn to_u8(self) -> u8 {
        self.0 as u8
    }
}

fn v(x: f64, y: f64, z: f64) -> Vec3<Num> {
    Vec3::new(Num(x), Num(y), Num(z))
}

fn assert_near(expected: f64, actual: Num) {
    assert!(
        (expected - actual.0).abs() <= 1e-9,
        "expected {} but got {}",
        expected,
        actual.0
    );
}

fn assert_vec_near(expected: (f64, f64, f64), actual: Vec3<Num>) {
    assert_near(expected.0, actual.x);
    assert_near(expected.1, actual.y);
    assert_near(expected.2, actual.z);
}

fn ivory() -> Material<Num> {
    Material {
        diffuse_color: v(0.4, 0.4, 0.3),
        diffuse_albedo: Num(0.6),
        specular_exponent: Num(50.0),
        specular_albedo: Num(0.3),
        reflective_albedo: Num(0.1),
        refractive_index: Num(1.0),
        refractive_albedo: Num(0.0),
    }
}

fn ground() -> CircularPlane<Num> {
    CircularPlane::new(v(0.0, 0.0, 0.0), Num(2.0), ivory(), v(1.0, 0.0, 0.0), v(0.0, 0.0, 1.0))
}

#[test]
fn test_vec3_norm() {
    let vec1 = v(3.0, -4.0, 12.0);
    assert_eq!(Num(13.0), vec1.norm());
}

#[test]
fn test_vec3_normalized() {
    let vec1: Vec3<Num> = v(3.0, -4.0, 12.0);
    assert_eq!(v(3. / 13., -4. / 13., 12. / 13.), vec1.normalize());
    assert_ne!(Num(1.0), vec1.norm());
    assert_eq!(Num(1.0), vec1.normalize().norm());
}

#[test]
fn normalized_vectors_have_length_one() {
    let vectors = [
        v(3.0, -4.0, 12.0),
        v(1.0, 2.0, 3.0),
        v(0.1, 0.2, -0.3),
        v(1e10, 1.0, -5.0),
        v(1e-8, 2e-8, 3e-9),
    ];
    for vector in vectors {
        let unit = vector.normalize();
        assert!((unit.norm().0 - 1.0).abs() <= 1e-15);
    }
}

#[test]
fn normalizing_twice_changes_nothing() {
    let vectors = [v(3.0, -4.0, 12.0), v(1.0, 2.0, 3.0), v(0.1, 0.2, -0.3), v(1e-8, 2e-8, 3e-9)];
    for vector in vectors {
        let once = vector.normalize();
        let twice = once.normalize();
        assert!((once.x.0 - twice.x.0).abs() <= 1e-15);
        assert!((once.y.0 - twice.y.0).abs() <= 1e-15);
        assert!((once.z.0 - twice.z.0).abs() <= 1e-15);
    }
    let exact = v(3.0, -4.0, 12.0).normalize();
    assert_eq!(exact, exact.normalize());
}

#[test]
fn normalizing_the_zero_vector_gives_no_number() {
    let unit = v(0.0, 0.0, 0.0).normalize();
    assert!(unit.x.0.is_nan() && unit.y.0.is_nan() && unit.z.0.is_nan());
}

#[test]
fn sphere_hit_from_outside() {
    for radius in [1.0, 2.0, 3.5] {
        let sphere = Sphere::new(v(0.0, 0.0, 0.0), Num(radius), ivory());
        let (distance, point, normal) =
            sphere.ray_intersect(v(0.0, 0.0, 10.0), v(0.0, 0.0, -1.0)).unwrap();
        assert_near(10.0 - radius, distance);
        assert_vec_near((0.0, 0.0, radius), point);
        assert_vec_near((0.0, 0.0, 1.0), normal);
        assert_vec_near((point.x.0 / radius, point.y.0 / radius, point.z.0 / radius), normal);
    }
}

#[test]
fn sphere_hit_off_axis() {
    let sphere = Sphere::new(v(0.0, 0.0, 0.0), Num(2.0), ivory());
    let dir = v(-0.05, 0.02, -1.0).normalize();
    let (distance, point, normal) = sphere.ray_intersect(v(1.0, 0.5, 10.0), dir).unwrap();
    assert_near(8.219893168146374, distance);
    assert_vec_near((0.5895999907974616, 0.6641600036810154, 1.7919998159492323), point);
    assert_vec_near((0.2947999953987303, 0.33208000184050707, 0.8959999079746146), normal);
}

#[test]
fn sphere_hit_from_inside_takes_the_far_crossing() {
    let sphere = Sphere::new(v(0.0, 0.0, 0.0), Num(2.0), ivory());
    let hit = sphere.ray_intersect(v(0.0, 0.0, 0.0), v(0.0, 0.0, -1.0));
    assert_eq!(Some((Num(2.0), v(0.0, 0.0, -2.0), v(0.0, 0.0, -1.0))), hit);
}

#[test]
fn sphere_behind_the_ray_is_not_hit() {
    let sphere = Sphere::new(v(0.0, 0.0, 0.0), Num(2.0), ivory());
    assert_eq!(None, sphere.ray_intersect(v(0.0, 0.0, 10.0), v(0.0, 0.0, 1.0)));
}

#[test]
fn sphere_beside_the_ray_is_not_hit() {
    let sphere = Sphere::new(v(0.0, 0.0, 0.0), Num(2.0), ivory());
    assert_eq!(None, sphere.ray_intersect(v(0.0, 0.0, 10.0), v(0.0, 1.0, 0.0)));
}

#[test]
fn sphere_keeps_its_material() {
    let sphere = Sphere::new(v(1.0, 2.0, 3.0), Num(2.0), ivory());
    assert_eq!(ivory(), *sphere.get_material());
    assert_eq!(v(1.0, 2.0, 3.0), sphere.center);
    assert_eq!(Num(2.0), sphere.radius);
}

#[test]
fn disk_hit_from_above() {
    let dir = v(0.1, -1.0, 0.2).normalize();
    let (distance, point, normal) = ground().ray_intersect(v(0.5, 3.0, 0.5), dir).unwrap();
    assert_near(3.0740852297878782, distance);
    assert_vec_near((0.8, 0.0, 1.1), point);
    assert_vec_near((0.0, 1.0, 0.0), normal);
}

#[test]
fn disk_hit_from_below_turns_the_normal() {
    let dir = v(0.1, 1.0, 0.2).normalize();
    let (distance, point, normal) = ground().ray_intersect(v(0.5, -3.0, 0.5), dir).unwrap();
    assert_near(3.0740852297878782, distance);
    assert_vec_near((0.8, 0.0, 1.1), point);
    assert_vec_near((0.0, -1.0, 0.0), normal);
}

#[test]
fn disk_is_missed_outside_its_radius() {
    let dir = v(0.1, -1.0, 0.2).normalize();
    assert_eq!(None, ground().ray_intersect(v(5.5, 3.0, 0.5), dir));
}

#[test]
fn disk_behind_the_ray_is_not_hit() {
    let dir = v(-0.1, 1.0, -0.2).normalize();
    assert_eq!(None, ground().ray_intersect(v(0.5, 3.0, 0.5), dir));
}

#[test]
fn disk_with_zero_divisors_uses_epsilon() {
    let down = v(0.0, -1.0, 0.0);
    let hit = ground().ray_intersect(v(0.5, 3.0, 0.0), down);
    assert_eq!(Some((Num(3.0), v(0.5, 0.0, 0.0), v(0.0, 1.0, 0.0))), hit);
    // Off the plane z = 0 the epsilon throws the point far away.
    assert_eq!(None, ground().ray_intersect(v(0.5, 3.0, 0.25), down));
}

#[test]
fn disk_keeps_its_material() {
    assert_eq!(ivory(), *ground().get_material());
}

#[test]
fn primitive_answers_as_its_shape() {
    let sphere = Sphere::new(v(0.0, 0.0, 0.0), Num(2.0), ivory());
    let origin = v(0.0, 0.0, 10.0);
    let dir = v(0.0, 0.0, -1.0);
    assert_eq!(
        sphere.ray_intersect(origin, dir),
        Primitive::Sphere(sphere).ray_intersect(origin, dir)
    );
    let down = v(0.1, -1.0, 0.2).normalize();
    assert_eq!(
        ground().ray_intersect(v(0.5, 3.0, 0.5), down),
        Primitive::Disk(ground()).ray_intersect(v(0.5, 3.0, 0.5), down)
    );
    assert_eq!(ivory(), *Primitive::Disk(ground()).get_material());
}

#[test]
fn reflect_mirrors_at_the_surface() {
    let s = 1.0 / 2.0_f64.sqrt();
    let mirrored = reflect(v(s, -s, 0.0), v(0.0, 1.0, 0.0));
    assert!((mirrored.x.0 - s).abs() <= 1e-15);
    assert!((mirrored.y.0 - s).abs() <= 1e-15);
    assert_eq!(0.0, mirrored.z.0);
}

#[test]
fn reflect_turns_back_a_ray_along_the_normal() {
    assert_eq!(v(0.0, 1.0, 0.0), reflect(v(0.0, -1.0, 0.0), v(0.0, 1.0, 0.0)));
    assert_eq!(v(1.0, 0.0, 0.0), reflect(v(1.0, 0.0, 0.0), v(0.0, 1.0, 0.0)));
}

#[test]
fn refract_under_total_internal_reflection_returns_the_ray() {
    // From glass into air at about 79 degrees from the normal.
    let ray = v(1.0, 0.2, 0.0).normalize();
    assert_eq!(ray, refract(ray, v(0.0, 1.0, 0.0), Num(1.5)));
}

#[test]
fn refract_straight_on_keeps_the_direction() {
    let bent = refract(v(0.0, -1.0, 0.0), v(0.0, 1.0, 0.0), Num(1.5));
    assert_vec_near((0.0, -1.0, 0.0), bent);
}

#[test]
fn refract_into_glass_bends_toward_the_normal() {
    let ray = v(1.0, -1.0, 0.0).normalize();
    let bent = refract(ray, v(0.0, 1.0, 0.0), Num(1.5));
    assert_vec_near((0.4714045207910316, -0.8819171036881968, 0.0), bent);
    // Snell's law: sin(in) = 1.5 * sin(out).
    assert_near(ray.x.0, Num(1.5 * bent.x.0));
}

#[test]
fn refract_out_of_glass_bends_away_from_the_normal() {
    let ray = v(0.2, 1.0, 0.0).normalize();
    let bent = refract(ray, v(0.0, 1.0, 0.0), Num(1.5));
    assert_vec_near((0.29417420270727607, 0.9557518184453213, 0.0), bent);
}

#[test]
fn refract_with_index_one_keeps_the_ray() {
    let ray = v(1.0, -1.0, 0.0).normalize();
    assert_vec_near((ray.x.0, ray.y.0, ray.z.0), refract(ray, v(0.0, 1.0, 0.0), Num(1.0)));
}
