use raytracer::vector::Cross;
use raytracer::vector::Vec3;

#[test]
fn test_vec3_add() {
    let vec1 = Vec3::new(1.0, 5.0, 7.0);
    let vec2 = Vec3::new(-5.0, 10.0, 0.0);
    assert_eq!(Vec3::new(-4.0, 15.0, 7.0), vec1 + vec2);
}

#[test]
fn test_vec3_sub() {
    let vec1 = Vec3::new(1.0, 5.0, 7.0);
    let vec2 = Vec3::new(-5.0, 10.0, 0.0);
    assert_eq!(Vec3::new(6.0, -5.0, 7.0), vec1 - vec2);
}

#[test]
fn test_vec3_dot() {
    let vec1 = Vec3::new(1.0, 5.0, 7.0);
    let vec2 = Vec3::new(-5.0, 10.0, 0.0);
    assert_eq!(45.0, vec1 * vec2);
}

#[test]
fn test_vec3_mul_scalar() {
    let vec1 = Vec3::new(1.0, 5.0, 7.0);
    let b = -5.0;
    assert_eq!(Vec3::new(-5.0, -25.0, -35.0), vec1 * b);
}

#[test]
fn test_vec3_neg() {
    let vec1 = Vec3::new(1.0, -5.0, 7.0);
    assert_eq!(Vec3::new(-1.0, 5.0, -7.0), -vec1);
}

#[test]
fn test_vec3_index() {
    let vec1 = Vec3::new(1.0, 5.0, 7.0);
    assert_eq!(1.0, vec1[0]);
    assert_eq!(5.0, vec1[1]);
    assert_eq!(7.0, vec1[2]);
}

#[test]
fn cross_of_integer_axes() {
    let x = Vec3::new(1i64, 0, 0);
    let y = Vec3::new(0i64, 1, 0);
    assert_eq!(Vec3::new(0, 0, 1), x.cross(y));
    assert_eq!(Vec3::new(0, 0, -1), y.cross(x));
}

#[test]
fn cross_of_two_vectors() {
    let a = Vec3::new(1.0, 2.0, 3.0);
    let b = Vec3::new(-2.0, 0.5, 4.0);
    assert_eq!(Vec3::new(6.5, -10.0, 4.5), a.cross(b));
    assert_eq!(Vec3::new(0.0, 0.0, 0.0), a.cross(a));
}

#[test]
fn integer_vectors_add_and_multiply() {
    let a = Vec3::new(1, 2, 3);
    let b = Vec3::new(10, 20, 30);
    assert_eq!(Vec3::new(11, 22, 33), a + b);
    assert_eq!(Vec3::new(9, 18, 27), b - a);
    assert_eq!(140, a * b);
    assert_eq!(Vec3::new(3, 6, 9), a * 3);
    assert_eq!(Vec3::new(-1, -2, -3), -a);
    assert_eq!(20, b[1]);
}

#[test]
fn new_keeps_the_components_in_order() {
    let a = Vec3::new(7u8, 8u8, 9u8);
    assert_eq!((7, 8, 9), (a.x, a.y, a.z));
    assert_eq!((7, 8, 9), (a[0], a[1], a[2]));
}
