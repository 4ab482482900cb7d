//! Rays and the recursive radiance integrator.

use crate::fixed::{fadd, fmul, fsub, fx_add, fx_mul, fx_sub, FIX_MAX, HALF, ONE};
use crate::hit::{scene_hit_s, Hit, Hittables};
use crate::rng::Rng;
use crate::vec3::{unit_vector, vadd, vmuls, vunit, Vec3};
use vstd::prelude::*;

verus! {

/// An origin point and a direction vector; the direction need not be
/// normalized.  A new ray is produced, never mutated, at each bounce.
#[derive(Clone, Copy, Debug, PartialEq, Eq, Structural)]
pub struct Ray {
    pub origin: Vec3,
    pub direction: Vec3,
}

impl View for Ray {
    type V = ((int, int, int), (int, int, int));

    open spec fn view(&self) -> ((int, int, int), (int, int, int)) {
        (self.origin@, self.direction@)
    }
}

/// The point a ray reaches at parameter `t`: `origin + t * direction`.
pub open spec fn ray_at_s(origin: (int, int, int), direction: (int, int, int), t: int) -> (
    int,
    int,
    int,
) {
    vadd(origin, vmuls(direction, t))
}

impl Ray {
    /// Build a ray from an origin and a direction.
    pub fn new(origin: Vec3, direction: Vec3) -> (r: Ray)
        ensures
            r.origin == origin,
            r.direction == direction,
    {
        Ray { origin, direction }
    }

    /// Parametric evaluation: the point at distance `t` along the ray.
    pub fn at(&self, t: i64) -> (r: Vec3)
        ensures
            r@ == ray_at_s(self.origin@, self.direction@, t as int),
    {
        self.origin.add(self.direction.scale(t))
    }
}

/// The shadow-acne guard: the lower end of the scene query interval, one
/// thousandth at fixed resolution, keeping a bounced ray from falsely
/// re-intersecting the surface it starts on.
pub const SHADOW_EPS: i64 = 65;

/// The green channel of the sky gradient's zenith color (0.5, 0.7, 1.0),
/// at fixed resolution.
pub const SKY_ZENITH_GREEN: i64 = 45875;

/// Radiance of a ray that hits nothing: a vertical gradient from white at
/// the horizon to sky-blue at the zenith, interpolated linearly by
/// `t = (unit_direction.y + 1) / 2`.
pub open spec fn background_s(ray: Ray) -> (int, int, int) {
    let t = fmul(HALF as int, fadd(vunit(ray.direction@).1, ONE as int));
    vadd(
        vmuls((ONE as int, ONE as int, ONE as int), fsub(ONE as int, t)),
        vmuls((HALF as int, SKY_ZENITH_GREEN as int, ONE as int), t),
    )
}

/// The gradient's endpoints are exact: a unit direction at the bottom of
/// the sky gives pure white, one at the top gives pure sky-blue.
pub proof fn lemma_background_extremes(ray: Ray)
    ensures
        vunit(ray.direction@).1 == -(ONE as int) ==> background_s(ray) == (
            ONE as int,
            ONE as int,
            ONE as int,
        ),
        vunit(ray.direction@).1 == ONE as int ==> background_s(ray) == (
            HALF as int,
            SKY_ZENITH_GREEN as int,
            ONE as int,
        ),
{
}

/// The recursive radiance integrator: a depth of zero is exact black; a
/// miss is exactly the background gradient; a hit recurses through the
/// struck material's scatter contract, multiplying in its attenuation, or
/// contributes black when the ray is absorbed.  At depth one a hit is
/// still exact black, whatever the material does: the one allowed bounce
/// lands on the depth cap and its attenuation multiplies black.
pub fn ray_color<T: Hit>(ray: &Ray, world: &Hittables<T>, depth: u16, rng: &mut Rng) -> (r: Vec3)
    ensures
        depth == 0 ==> r@ == (0int, 0int, 0int),
        depth > 0 && scene_hit_s(world@, *ray, SHADOW_EPS as int, FIX_MAX as int) is None
            ==> r@ == background_s(*ray),
        depth == 1 && scene_hit_s(world@, *ray, SHADOW_EPS as int, FIX_MAX as int) is Some
            ==> r@ == (0int, 0int, 0int),
    decreases depth,
{
    if depth == 0 {
        return Vec3::new(0, 0, 0);
    }
    match world.hit(ray, SHADOW_EPS, FIX_MAX) {
        Some(record) => {
            match record.material.scatter(ray, &record, rng) {
                Some((attenuation, scattered)) => {
                    let sub = ray_color(&scattered, world, depth - 1, rng);
                    proof {
                        crate::fixed::lemma_fmul_zero();
                    }
                    attenuation.mul(sub)
                },
                None => Vec3::new(0, 0, 0),
            }
        },
        None => {
            let unit_direction = unit_vector(ray.direction);
            let t = fx_mul(HALF, fx_add(unit_direction.y, ONE));
            Vec3::new(ONE, ONE, ONE).scale(fx_sub(ONE, t)).add(
                Vec3::new(HALF, SKY_ZENITH_GREEN, ONE).scale(t),
            )
        },
    }
}

} // verus!
