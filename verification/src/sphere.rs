//! The spherical geometric primitive and its intersection search.

use crate::fixed::{
    fadd, fdiv, fmul, fneg, fsqrt, fsub, fx_add, fx_div, fx_mul, fx_neg, fx_sqrt, fx_sub,
    lemma_fdiv_mono, lemma_fsqrt_nonneg,
};
use crate::hit::{
    face_normal, face_normal_s, lemma_face_normal_opposes, scene_hit_s, Hit, HitInfo, HitRecord,
};
use crate::material::Material;
use crate::ray::{ray_at_s, Ray};
use crate::vec3::{dot, lemma_vlen_sq_nonneg, rep_ok, vdivs, vdot, vlen_sq, vsub, Vec3};
use vstd::prelude::*;

verus! {

/// A sphere: center, positive radius, and the material of its surface.
#[derive(Clone, Copy, Debug, PartialEq, Eq, Structural)]
pub struct Sphere {
    pub center: Vec3,
    pub radius: i64,
    pub material: Material,
}

/// The hit record a sphere reports for an accepted root: the hit point,
/// the outward normal `(point - center) / radius` oriented against the
/// incoming ray, the parameter, and the sphere's material.
pub open spec fn sphere_record_s(s: Sphere, ray: Ray, root: int) -> HitInfo {
    let point = ray_at_s(ray.origin@, ray.direction@, root);
    let outward = vdivs(vsub(point, s.center@), s.radius as int);
    let oriented = face_normal_s(ray.direction@, outward);
    HitInfo {
        point,
        normal: oriented.1,
        t: root,
        front_face: oriented.0,
        material: s.material,
    }
}

/// Ray-sphere intersection: with `oc = O - C`, `a = D·D`, `half_b = oc·D`,
/// `c = oc·oc - r²`, a negative discriminant `half_b² - a·c` means no hit;
/// otherwise the smaller root `(-half_b - √disc) / a` is accepted if it
/// lies in `[t_min, t_max]`, else the larger root under the same bound,
/// else there is no hit.
pub open spec fn sphere_hit_s(s: Sphere, ray: Ray, t_min: int, t_max: int) -> Option<HitInfo> {
    let oc = vsub(ray.origin@, s.center@);
    let a = vlen_sq(ray.direction@);
    let half_b = vdot(oc, ray.direction@);
    let c = fsub(vlen_sq(oc), fmul(s.radius as int, s.radius as int));
    let disc = fsub(fmul(half_b, half_b), fmul(a, c));
    if disc < 0 {
        None::<HitInfo>
    } else {
        let sqrtd = fsqrt(disc);
        let root1 = fdiv(fsub(fneg(half_b), sqrtd), a);
        let root2 = fdiv(fadd(fneg(half_b), sqrtd), a);
        if t_min <= root1 && root1 <= t_max {
            Some(sphere_record_s(s, ray, root1))
        } else if t_min <= root2 && root2 <= t_max {
            Some(sphere_record_s(s, ray, root2))
        } else {
            None::<HitInfo>
        }
    }
}

/// The root-selection law: a negative discriminant (closest approach
/// farther than the radius) is a miss; otherwise the smaller root wins
/// when it lies in `[t_min, t_max]`, the larger root is consulted next,
/// and neither in range is a miss.
pub proof fn lemma_sphere_hit_cases(s: Sphere, ray: Ray, t_min: int, t_max: int)
    ensures
        ({
            let oc = vsub(ray.origin@, s.center@);
            let a = vlen_sq(ray.direction@);
            let half_b = vdot(oc, ray.direction@);
            let c = fsub(vlen_sq(oc), fmul(s.radius as int, s.radius as int));
            let disc = fsub(fmul(half_b, half_b), fmul(a, c));
            let sqrtd = fsqrt(disc);
            let root1 = fdiv(fsub(fneg(half_b), sqrtd), a);
            let root2 = fdiv(fadd(fneg(half_b), sqrtd), a);
            &&& root1 <= root2
            &&& (disc < 0 ==> sphere_hit_s(s, ray, t_min, t_max) is None)
            &&& (disc >= 0 && t_min <= root1 <= t_max ==> sphere_hit_s(s, ray, t_min, t_max)
                == Some(sphere_record_s(s, ray, root1)))
            &&& (disc >= 0 && !(t_min <= root1 <= t_max) && t_min <= root2 <= t_max
                ==> sphere_hit_s(s, ray, t_min, t_max) == Some(sphere_record_s(s, ray, root2)))
            &&& (disc >= 0 && !(t_min <= root1 <= t_max) && !(t_min <= root2 <= t_max)
                ==> sphere_hit_s(s, ray, t_min, t_max) is None)
        }),
{
    let oc = vsub(ray.origin@, s.center@);
    let a = vlen_sq(ray.direction@);
    let half_b = vdot(oc, ray.direction@);
    let c = fsub(vlen_sq(oc), fmul(s.radius as int, s.radius as int));
    let disc = fsub(fmul(half_b, half_b), fmul(a, c));
    let sqrtd = fsqrt(disc);
    lemma_vlen_sq_nonneg(ray.direction@);
    lemma_fsqrt_nonneg(disc);
    lemma_fdiv_mono(fsub(fneg(half_b), sqrtd), fadd(fneg(half_b), sqrtd), a);
}

/// A sphere's reported parameter lies in the queried interval.
pub proof fn lemma_sphere_hit_in_interval(s: Sphere, ray: Ray, t_min: int, t_max: int, h: HitInfo)
    requires
        sphere_hit_s(s, ray, t_min, t_max) == Some(h),
    ensures
        t_min <= h.t <= t_max,
{
}

/// Narrowing the far end of the interval to a bound still at or beyond
/// the reported parameter leaves a sphere's hit unchanged.
pub proof fn lemma_sphere_hit_narrow(
    s: Sphere,
    ray: Ray,
    t_min: int,
    t_max: int,
    t_max2: int,
    h: HitInfo,
)
    requires
        sphere_hit_s(s, ray, t_min, t_max) == Some(h),
        h.t <= t_max2 <= t_max,
    ensures
        sphere_hit_s(s, ray, t_min, t_max2) == Some(h),
{
    lemma_sphere_hit_cases(s, ray, t_min, t_max);
    lemma_sphere_hit_cases(s, ray, t_min, t_max2);
}

/// Narrowing the far end of the interval strictly below the reported
/// parameter turns a sphere's hit into a miss.
pub proof fn lemma_sphere_hit_below(
    s: Sphere,
    ray: Ray,
    t_min: int,
    t_max: int,
    t_max2: int,
    h: HitInfo,
)
    requires
        sphere_hit_s(s, ray, t_min, t_max) == Some(h),
        t_max2 < h.t,
        t_max2 <= t_max,
    ensures
        sphere_hit_s(s, ray, t_min, t_max2) is None,
{
    lemma_sphere_hit_cases(s, ray, t_min, t_max);
    lemma_sphere_hit_cases(s, ray, t_min, t_max2);
}

/// Scene aggregation of two overlapping spheres: whichever order the two
/// are inserted in, the scene reports the record of the nearer hit.
pub proof fn lemma_two_spheres_nearest(
    s1: Sphere,
    s2: Sphere,
    ray: Ray,
    t_min: int,
    t_max: int,
    h1: HitInfo,
    h2: HitInfo,
)
    requires
        sphere_hit_s(s1, ray, t_min, t_max) == Some(h1),
        sphere_hit_s(s2, ray, t_min, t_max) == Some(h2),
        h1.t < h2.t,
    ensures
        scene_hit_s(seq![s1, s2], ray, t_min, t_max) == Some(h1),
        scene_hit_s(seq![s2, s1], ray, t_min, t_max) == Some(h1),
{
    lemma_sphere_hit_in_interval(s1, ray, t_min, t_max, h1);
    lemma_sphere_hit_in_interval(s2, ray, t_min, t_max, h2);
    assert(seq![s1, s2].drop_last() =~= seq![s1]);
    assert(seq![s2, s1].drop_last() =~= seq![s2]);
    assert(seq![s1].drop_last() =~= Seq::<Sphere>::empty());
    assert(seq![s2].drop_last() =~= Seq::<Sphere>::empty());
    assert(scene_hit_s(Seq::<Sphere>::empty(), ray, t_min, t_max) is None);
    assert(seq![s1].last() == s1);
    assert(seq![s2].last() == s2);
    assert(seq![s1, s2].last() == s2);
    assert(seq![s2, s1].last() == s1);
    assert(scene_hit_s(seq![s1], ray, t_min, t_max) == Some(h1));
    assert(scene_hit_s(seq![s2], ray, t_min, t_max) == Some(h2));
    lemma_sphere_hit_below(s2, ray, t_min, t_max, h1.t, h2);
    assert(scene_hit_s(seq![s1, s2], ray, t_min, t_max) == Some(h1));
    lemma_sphere_hit_narrow(s1, ray, t_min, t_max, h2.t, h1);
    assert(scene_hit_s(seq![s2, s1], ray, t_min, t_max) == Some(h1));
}

impl Sphere {
    /// A sphere with the given center, positive radius, and material.
    pub fn new(center: Vec3, radius: i64, material: Material) -> (r: Sphere)
        requires
            radius > 0,
        ensures
            r.center == center,
            r.radius == radius,
            r.material == material,
    {
        Sphere { center, radius, material }
    }
}

impl Hit for Sphere {
    open spec fn hit_s(self, ray: Ray, t_min: int, t_max: int) -> Option<HitInfo> {
        sphere_hit_s(self, ray, t_min, t_max)
    }

    /// Solve the quadratic `|O + tD - C|² = r²` and accept the nearest
    /// root in `[t_min, t_max]`.
    fn hit(&self, ray: &Ray, t_min: i64, t_max: i64) -> (r: Option<HitRecord>) {
        let oc = ray.origin.sub(self.center);
        let a = ray.direction.length_squared();
        let half_b = dot(oc, ray.direction);
        let c = fx_sub(oc.length_squared(), fx_mul(self.radius, self.radius));
        let discriminant = fx_sub(fx_mul(half_b, half_b), fx_mul(a, c));
        if discriminant < 0 {
            return None;
        }
        let sqrtd = fx_sqrt(discriminant);
        let mut root = fx_div(fx_sub(fx_neg(half_b), sqrtd), a);
        if root < t_min || t_max < root {
            root = fx_div(fx_add(fx_neg(half_b), sqrtd), a);
            if root < t_min || t_max < root {
                return None;
            }
        }
        let point = ray.at(root);
        let outward_normal = point.sub(self.center).div(self.radius);
        let (front_face, normal) = face_normal(ray, outward_normal);
        proof {
            assert(rep_ok(outward_normal@));
            lemma_face_normal_opposes(ray.direction@, outward_normal@);
        }
        Some(HitRecord { point, normal, t: root, front_face, material: self.material })
    }
}

} // verus!
