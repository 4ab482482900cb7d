//! The vector primitive, exercised on exact fixed-point values.

use raytrace::fixed::ONE;
use raytrace::vec3::{cross, dot, unit_vector, Vec3};

#[test]
fn negation_should_negate_all_fields() {
    let x: i64 = 6554; // about 0.1
    let y: i64 = 13107; // about 0.2
    let z: i64 = 19661; // about 0.3
    let vec = Vec3::new(x, y, z);
    assert_eq!(vec.neg(), Vec3::new(-x, -y, -z));
}

#[test]
fn mul_assign_should_perform_correctly() {
    let x: i64 = ONE;
    let y: i64 = 2 * ONE;
    let z: i64 = 3 * ONE;
    let mut vec = Vec3::new(x, y, z);
    vec.mul_assign(2 * ONE);
    assert_eq!(vec, Vec3::new(2 * ONE, 4 * ONE, 6 * ONE));
}

#[test]
fn add_should_perform_correctly() {
    let x: i64 = ONE;
    let y: i64 = 2 * ONE;
    let z: i64 = 3 * ONE;
    let one = Vec3::new(x, y, z);
    let two = Vec3::new(x, y, z);
    let answer = one.add(two);
    assert_eq!(answer, Vec3::new(x + x, y + y, z + z));
}

#[test]
fn add_assign_should_perform_correctly() {
    let x: i64 = ONE;
    let y: i64 = 2 * ONE;
    let z: i64 = 3 * ONE;
    let mut vec = Vec3::new(x, y, z);
    vec.add_assign(ONE);
    assert_eq!(vec, Vec3::new(x + ONE, y + ONE, z + ONE));
}

#[test]
fn sub_should_perform_correctly() {
    let x: i64 = ONE;
    let y: i64 = 2 * ONE;
    let z: i64 = 3 * ONE;
    let one = Vec3::new(x, y, z);
    let two = Vec3::new(x + ONE, y + ONE, z + ONE);
    let vec = two.sub(one);
    assert_eq!(vec, Vec3::new(ONE, ONE, ONE));
}

#[test]
fn mul_should_perform_correctly() {
    let x: i64 = ONE;
    let y: i64 = 2 * ONE;
    let z: i64 = 3 * ONE;
    let one = Vec3::new(x, y, z);
    let two = Vec3::new(x + ONE, y + ONE, z + ONE);
    let vec = two.mul(one);
    assert_eq!(vec, Vec3::new(2 * ONE, 6 * ONE, 12 * ONE));
}

#[test]
fn mul_with_f32_should_perform_correctly() {
    let x: i64 = ONE;
    let y: i64 = 2 * ONE;
    let z: i64 = 3 * ONE;
    let vec = Vec3::new(x, y, z);
    let answer = vec.scale(2 * ONE);
    assert_eq!(answer, Vec3::new(2 * ONE, 4 * ONE, 6 * ONE));
}

#[test]
fn div_with_f32_should_perform_correctly() {
    let x: i64 = 2 * ONE;
    let y: i64 = 3 * ONE;
    let z: i64 = 5 * ONE;
    let vec = Vec3::new(x, y, z);
    let answer = vec.div(2 * ONE);
    assert_eq!(answer, Vec3::new(x / 2, y / 2, z / 2));
}

#[test]
fn div_assign_should_perform_correctly() {
    let x: i64 = 2 * ONE;
    let y: i64 = 3 * ONE;
    let z: i64 = 5 * ONE;
    let mut vec = Vec3::new(x, y, z);
    vec.div_assign(2 * ONE);
    assert_eq!(vec, Vec3::new(x / 2, y / 2, z / 2));
}

#[test]
fn length_squared_should_compute_correct_value() {
    let x: i64 = 2 * ONE;
    let y: i64 = 3 * ONE;
    let z: i64 = 5 * ONE;
    let vec = Vec3::new(x, y, z);
    let length_squared = vec.length_squared();
    let expected: i64 = 38 * ONE;
    assert_eq!(length_squared, expected, "got {} expected {}", length_squared, expected);
}

#[test]
fn length_should_compute_correct_value() {
    let x: i64 = 2 * ONE;
    let y: i64 = 3 * ONE;
    let z: i64 = 5 * ONE;
    let vec = Vec3::new(x, y, z);
    let length = vec.length();
    // floor(sqrt(38) * 2^16)
    let expected: i64 = 403991;
    assert_eq!(length, expected, "got {} expected {}", length, expected);
}

#[test]
fn dot_product_should_be_correct() {
    let x: i64 = 2 * ONE;
    let y: i64 = 3 * ONE;
    let z: i64 = 5 * ONE;
    let one = Vec3::new(x, y, z);
    let two = Vec3::new(x, y, z);
    let answer = dot(one, two);
    let expected: i64 = 38 * ONE;
    assert_eq!(answer, expected, "got {} expected {}", answer, expected);
}

#[test]
fn cross_product_should_be_correct() {
    let x: i64 = 2 * ONE;
    let y: i64 = 3 * ONE;
    let z: i64 = 5 * ONE;
    let one = Vec3::new(x, y, z);
    let two = Vec3::new(x, y, z);
    let answer = cross(one, two);
    let expected = Vec3::new(0, 0, 0);
    assert_eq!(answer, expected)
}

#[test]
fn unit_vector_should_be_correct() {
    let x: i64 = 2 * ONE;
    let y: i64 = 3 * ONE;
    let z: i64 = 5 * ONE;
    let one = Vec3::new(x, y, z);
    let answer = unit_vector(one);
    let expected = one.div(one.length());
    assert_eq!(answer, expected);
}

#[test]
fn cross_product_of_basis_vectors_is_right_handed() {
    let ex = Vec3::new(ONE, 0, 0);
    let ey = Vec3::new(0, ONE, 0);
    let ez = Vec3::new(0, 0, ONE);
    assert_eq!(cross(ex, ey), ez);
    assert_eq!(cross(ey, ez), ex);
    assert_eq!(cross(ez, ex), ey);
}

#[test]
fn unit_vector_of_pythagorean_direction() {
    let v = Vec3::new(3 * ONE, 0, -4 * ONE);
    assert_eq!(v.length(), 5 * ONE);
    assert_eq!(unit_vector(v), Vec3::new(39321, 0, -52428));
}

#[test]
fn near_zero_detects_only_the_zero_vector() {
    assert!(Vec3::new(0, 0, 0).near_zero());
    assert!(!Vec3::new(1, 0, 0).near_zero());
    assert!(!Vec3::new(0, -1, 0).near_zero());
}
