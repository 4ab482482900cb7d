//! The camera and the radiance integrator, end to end.

use raytrace::camera::Camera;
use raytrace::fixed::{FIX_MAX, HALF, ONE};
use raytrace::hit::Hittables;
use raytrace::material::{Lambertian, Material};
use raytrace::ray::{ray_color, Ray, SKY_ZENITH_GREEN};
use raytrace::rng::Rng;
use raytrace::sphere::Sphere;
use raytrace::vec3::Vec3;

fn one_sphere_world() -> Hittables<Sphere> {
    let material = Material::Lambertian(Lambertian::new(Vec3::new(HALF, HALF, HALF)));
    let mut world = Hittables::new();
    world.add(Sphere::new(Vec3::new(0, 0, -ONE), HALF, material));
    world
}

#[test]
fn depth_zero_is_exactly_black() {
    let world = one_sphere_world();
    let mut rng = Rng::seeded(1);
    let ray = Ray::new(Vec3::new(0, 0, 0), Vec3::new(0, 0, -ONE));
    assert_eq!(ray_color(&ray, &world, 0, &mut rng), Vec3::new(0, 0, 0));
    let miss = Ray::new(Vec3::new(0, 0, 0), Vec3::new(0, ONE, 0));
    assert_eq!(ray_color(&miss, &world, 0, &mut rng), Vec3::new(0, 0, 0));
}

#[test]
fn depth_one_hit_is_black_before_any_light_arrives() {
    // The single allowed bounce lands on the depth cap, so whatever the
    // material draws, the attenuation multiplies exact black.
    let world = one_sphere_world();
    let ray = Ray::new(Vec3::new(0, 0, 0), Vec3::new(0, 0, -ONE));
    for seed in 0..8u64 {
        let mut rng = Rng::seeded(seed);
        assert_eq!(ray_color(&ray, &world, 1, &mut rng), Vec3::new(0, 0, 0));
    }
}

#[test]
fn background_is_white_at_the_bottom_of_the_sky() {
    let world: Hittables<Sphere> = Hittables::new();
    let mut rng = Rng::seeded(1);
    let ray = Ray::new(Vec3::new(0, 0, 0), Vec3::new(0, -ONE, 0));
    assert_eq!(ray_color(&ray, &world, 8, &mut rng), Vec3::new(ONE, ONE, ONE));
}

#[test]
fn background_is_sky_blue_at_the_zenith() {
    let world: Hittables<Sphere> = Hittables::new();
    let mut rng = Rng::seeded(1);
    let ray = Ray::new(Vec3::new(0, 0, 0), Vec3::new(0, ONE, 0));
    assert_eq!(ray_color(&ray, &world, 8, &mut rng), Vec3::new(HALF, SKY_ZENITH_GREEN, ONE));
}

#[test]
fn background_interpolates_linearly_at_the_horizon() {
    let world: Hittables<Sphere> = Hittables::new();
    let mut rng = Rng::seeded(1);
    let ray = Ray::new(Vec3::new(0, 0, 0), Vec3::new(ONE, 0, 0));
    // t = 1/2: the midpoint of white and (0.5, 0.7, 1.0), each channel
    // truncated to resolution.
    assert_eq!(ray_color(&ray, &world, 8, &mut rng), Vec3::new(49152, 55705, ONE));
}

#[test]
fn center_ray_hits_the_sphere_and_shades_between_black_and_sky() {
    let world = one_sphere_world();
    let ray = Ray::new(Vec3::new(0, 0, 0), Vec3::new(0, 0, -ONE));

    // The probe ray meets the sphere of radius one half at t = 1/2.
    let rec = world.hit(&ray, 65, FIX_MAX).expect("the center ray meets the sphere");
    assert_eq!(rec.t, HALF);

    let mut rng = Rng::seeded(7);
    let color = ray_color(&ray, &world, 2, &mut rng);
    // One diffuse bounce into the sky: the result is the albedo times a
    // gradient sample, strictly between black and any sky color.
    assert!(color.x > 0 && color.y > 0 && color.z > 0);
    assert!(color.x < ONE && color.y < ONE && color.z < ONE);
}

#[test]
fn camera_center_ray_with_no_aperture_is_exact() {
    let camera = Camera::new(
        Vec3::new(0, 0, 0),
        Vec3::new(0, 0, -ONE),
        Vec3::new(0, ONE, 0),
        ONE, // tangent of half of a 90 degree field of view
        ONE,
        0,
        ONE,
    );
    assert_eq!(camera.origin, Vec3::new(0, 0, 0));
    assert_eq!(camera.w, Vec3::new(0, 0, ONE));
    assert_eq!(camera.u, Vec3::new(ONE, 0, 0));
    assert_eq!(camera.v, Vec3::new(0, ONE, 0));
    assert_eq!(camera.horizontal, Vec3::new(2 * ONE, 0, 0));
    assert_eq!(camera.vertical, Vec3::new(0, 2 * ONE, 0));
    assert_eq!(camera.lower_left_corner, Vec3::new(-ONE, -ONE, -ONE));
    assert_eq!(camera.lens_radius, 0);

    let mut rng = Rng::seeded(2);
    let ray = camera.get_ray(HALF, HALF, &mut rng);
    assert_eq!(ray.origin, Vec3::new(0, 0, 0));
    assert_eq!(ray.direction, Vec3::new(0, 0, -ONE));

    let corner = camera.get_ray(0, 0, &mut rng);
    assert_eq!(corner.origin, Vec3::new(0, 0, 0));
    assert_eq!(corner.direction, Vec3::new(-ONE, -ONE, -ONE));
}

#[test]
fn camera_aperture_offsets_stay_within_the_lens_radius() {
    let camera = Camera::new(
        Vec3::new(0, 0, 0),
        Vec3::new(0, 0, -ONE),
        Vec3::new(0, ONE, 0),
        ONE,
        ONE,
        HALF, // lens radius one quarter
        ONE,
    );
    assert_eq!(camera.lens_radius, ONE / 4);
    let mut rng = Rng::seeded(5);
    for _ in 0..64 {
        let ray = camera.get_ray(HALF, HALF, &mut rng);
        assert!(ray.origin.x.abs() <= ONE / 4);
        assert!(ray.origin.y.abs() <= ONE / 4);
        assert_eq!(ray.origin.z, 0);
    }
}

#[test]
fn seeded_generators_repeat_and_respect_bounds() {
    let mut a = Rng::seeded(42);
    let mut b = Rng::seeded(42);
    for _ in 0..256 {
        let x = a.next_in(-ONE, ONE);
        let y = b.next_in(-ONE, ONE);
        assert_eq!(x, y);
        assert!((-ONE..ONE).contains(&x));
    }
    let mut c = Rng::seeded(43);
    let mut differs = false;
    for _ in 0..256 {
        if c.next_in(-ONE, ONE) != a.next_in(-ONE, ONE) {
            differs = true;
        }
    }
    assert!(differs, "different seeds should give different streams");
}

#[test]
fn random_samplers_stay_inside_their_regions() {
    let mut rng = Rng::seeded(12);
    for _ in 0..128 {
        let p = raytrace::vec3::random_in_unit_sphere(&mut rng);
        assert!(p.length_squared() < ONE);
        let d = raytrace::vec3::random_in_unit_disk(&mut rng);
        assert!(d.length_squared() < ONE);
        assert_eq!(d.z, 0);
        let v = Vec3::random(&mut rng, -ONE, ONE);
        assert!((-ONE..ONE).contains(&v.x));
        assert!((-ONE..ONE).contains(&v.y));
        assert!((-ONE..ONE).contains(&v.z));
    }
}

#[test]
fn hemisphere_samples_do_not_oppose_the_normal() {
    let mut rng = Rng::seeded(13);
    let normal = Vec3::new(0, 0, ONE);
    for _ in 0..128 {
        let p = raytrace::vec3::random_in_hemisphere(&mut rng, normal);
        // The fold negates any sample whose projection on the normal is
        // not positive, so the result's projection is never negative.
        assert!(raytrace::vec3::dot(p, normal) >= 0);
    }
}
