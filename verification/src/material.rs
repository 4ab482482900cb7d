//! The material scattering models: diffuse (Lambertian), metallic, and
//! dielectric surfaces, dispatched through a single scatter operation.
//!
//! The scatter contract is `scatter(ray_in, hit_record) -> Option<(attenuation,
//! scattered_ray)>`; `None` signals full absorption.  Each model's contract
//! states what holds for every outcome of the random draws it makes.

use crate::fixed::{
    fadd, fdiv, fmin, fmul, fneg, fsqrt, fsub, fx_abs, fx_add, fx_clamp, fx_div, fx_min, fx_mul,
    fx_neg, fx_sqrt, fx_sub, fclamp, fabs, is_sqrt_floor, lemma_sqrt_floor_is,
    lemma_sqrt_floor_unique, sqrt_floor, ONE,
};
use crate::hit::HitRecord;
use crate::ray::Ray;
use crate::rng::Rng;
use crate::vec3::{
    dot, in_unit_ball, lemma_fmul_neg_right, random_in_unit_sphere, random_unit_vector, reflect,
    rep_ok, unit_vector, vadd, vdot, vlen_sq, vmuls, vnear_zero, vneg, vreflect, vunit, Vec3,
};
use vstd::prelude::*;

verus! {

/// A diffuse surface: per-channel reflectance, each in `[0, 1]`.
#[derive(Clone, Copy, Debug, PartialEq, Eq, Structural)]
pub struct Lambertian {
    pub albedo: Vec3,
}

/// A reflective surface: per-channel reflectance and a fuzz radius that
/// blurs the reflection, clamped into `[0, 1]` at construction.
#[derive(Clone, Copy, Debug, PartialEq, Eq, Structural)]
pub struct Metal {
    pub albedo: Vec3,
    pub fuzz: i64,
}

/// A transparent refractive surface with the given refraction index.
#[derive(Clone, Copy, Debug, PartialEq, Eq, Structural)]
pub struct Dialectric {
    pub refraction_index: i64,
}

/// A surface material: one of the three scattering models.
#[derive(Clone, Copy, Debug, PartialEq, Eq, Structural)]
pub enum Material {
    Lambertian(Lambertian),
    Metal(Metal),
    Dialectric(Dialectric),
}

/// The direction a diffuse surface scatters into, as a function of the
/// unit-ball point `p` the random unit vector was drawn from: the surface
/// normal plus that unit vector, with the normal itself substituted when
/// the sum degenerates to near-zero.
pub open spec fn lambertian_dir(normal: (int, int, int), p: (int, int, int)) -> (int, int, int) {
    let d = vadd(normal, vunit(p));
    if vnear_zero(d) {
        normal
    } else {
        d
    }
}

/// What diffuse scattering promises: it always scatters, the attenuation
/// is the albedo exactly (independent of the incoming ray and the random
/// draw), the scattered ray starts at the hit point, and its direction is
/// the diffuse direction for some unit-ball sample.
pub open spec fn lambertian_scatter_ok(
    albedo: Vec3,
    record: HitRecord,
    r: Option<(Vec3, Ray)>,
) -> bool {
    &&& r is Some
    &&& (r matches Some(s) ==> {
        &&& s.0 == albedo
        &&& s.1.origin == record.point
        &&& exists|p: (int, int, int)|
            in_unit_ball(p) && s.1.direction@ == lambertian_dir(record.normal@, p)
    })
}

/// The outcome of metallic scattering for the unit-ball sample `p` that
/// perturbed the reflection: accepted exactly when the perturbed direction
/// leaves the surface, absorbed otherwise.
pub open spec fn metal_outcome(
    m: Metal,
    record: HitRecord,
    refl: (int, int, int),
    p: (int, int, int),
    r: Option<(Vec3, Ray)>,
) -> bool {
    let d = vadd(refl, vmuls(p, m.fuzz as int));
    if vdot(d, record.normal@) > 0 {
        r matches Some(s) && s.0 == m.albedo && s.1.origin == record.point && s.1.direction@ == d
    } else {
        r is None
    }
}

/// What metallic scattering promises: the incoming unit direction is
/// mirrored about the normal and perturbed by `fuzz` times some unit-ball
/// sample, which decides acceptance or absorption.
pub open spec fn metal_scatter_ok(
    m: Metal,
    ray_in: Ray,
    record: HitRecord,
    r: Option<(Vec3, Ray)>,
) -> bool {
    let refl = vreflect(vunit(ray_in.direction@), record.normal@);
    exists|p: (int, int, int)| in_unit_ball(p) && metal_outcome(m, record, refl, p, r)
}

/// Fifth power, as the repeated saturating product.
pub open spec fn fpow5(x: int) -> int {
    fmul(fmul(fmul(fmul(x, x), x), x), x)
}

/// Schlick's closed-form approximation of the Fresnel reflectance.
pub open spec fn schlick(cosine: int, refraction_index: int) -> int {
    let r0 = fdiv(fsub(ONE as int, refraction_index), fadd(ONE as int, refraction_index));
    let r0sq = fmul(r0, r0);
    fadd(r0sq, fmul(fsub(ONE as int, r0sq), fpow5(fsub(ONE as int, cosine))))
}

/// Refraction of unit direction `uv` at a surface with normal `n` and
/// refraction ratio `etai_over_etat`, by Snell's law.
pub open spec fn vrefract(uv: (int, int, int), n: (int, int, int), etai_over_etat: int) -> (
    int,
    int,
    int,
) {
    let cos = fmin(vdot(vneg(uv), n), ONE as int);
    let r_perp = vmuls(vadd(uv, vmuls(n, cos)), etai_over_etat);
    let r_par = vmuls(n, fneg(fsqrt(fabs(fsub(ONE as int, vlen_sq(r_perp))))));
    vadd(r_perp, r_par)
}

/// A value the uniform draw from `[0, 1)` can take.
pub open spec fn is_unit_draw(q: int) -> bool {
    0 <= q < ONE as int
}

/// What dielectric scattering promises: it always scatters with attenuation
/// one (glass absorbs nothing), the ray starts at the hit point, total
/// internal reflection forces a mirror reflection, and otherwise the
/// direction is the reflection or the refraction according to how the
/// Schlick reflectance compares with some uniform draw from `[0, 1)`.
pub open spec fn dialectric_scatter_ok(
    d: Dialectric,
    ray_in: Ray,
    record: HitRecord,
    r: Option<(Vec3, Ray)>,
) -> bool {
    let ratio = if record.front_face {
        fdiv(ONE as int, d.refraction_index as int)
    } else {
        d.refraction_index as int
    };
    let ud = vunit(ray_in.direction@);
    let cos = fmin(vdot(vneg(ud), record.normal@), ONE as int);
    let sin = fsqrt(fsub(ONE as int, fmul(cos, cos)));
    let cannot_refract = fmul(ratio, sin) > ONE as int;
    &&& r is Some
    &&& (r matches Some(s) ==> {
        &&& s.0@ == (ONE as int, ONE as int, ONE as int)
        &&& s.1.origin == record.point
        &&& (cannot_refract ==> s.1.direction@ == vreflect(ud, record.normal@))
        &&& exists|q: int|
            #[trigger] is_unit_draw(q) && s.1.direction@ == (if cannot_refract || schlick(
                cos,
                ratio,
            ) > q {
                vreflect(ud, record.normal@)
            } else {
                vrefract(ud, record.normal@, ratio)
            })
    })
}

/// What scattering promises, dispatched over the material variants.
pub open spec fn scatter_ok(
    m: Material,
    ray_in: Ray,
    record: HitRecord,
    r: Option<(Vec3, Ray)>,
) -> bool {
    match m {
        Material::Lambertian(l) => lambertian_scatter_ok(l.albedo, record, r),
        Material::Metal(mm) => metal_scatter_ok(mm, ray_in, record, r),
        Material::Dialectric(dd) => dialectric_scatter_ok(dd, ray_in, record, r),
    }
}

impl Lambertian {
    /// A diffuse material with the given per-channel reflectance.
    pub fn new(albedo: Vec3) -> (r: Lambertian)
        requires
            0 <= albedo@.0 <= ONE as int,
            0 <= albedo@.1 <= ONE as int,
            0 <= albedo@.2 <= ONE as int,
        ensures
            r.albedo == albedo,
    {
        Lambertian { albedo }
    }

    /// Diffuse scatter: direction is `normal + random_unit_vector()`, with
    /// the normal substituted for a degenerate sum; always scatters, and
    /// the attenuation equals the albedo exactly.
    pub fn scatter(&self, _ray_in: &Ray, record: &HitRecord, rng: &mut Rng) -> (r: Option<
        (Vec3, Ray),
    >)
        ensures
            lambertian_scatter_ok(self.albedo, *record, r),
    {
        let rv = random_unit_vector(rng);
        let mut scatter_direction = record.normal.add(rv);
        if scatter_direction.near_zero() {
            scatter_direction = record.normal;
        }
        let result = Some((self.albedo, Ray::new(record.point, scatter_direction)));
        proof {
            let p = choose|p: (int, int, int)| in_unit_ball(p) && rv@ == vunit(p);
            assert(in_unit_ball(p) && scatter_direction@ == lambertian_dir(record.normal@, p));
        }
        result
    }
}

impl Metal {
    /// A metallic material; the fuzz radius is clamped into `[0, 1]`.
    pub fn new(albedo: Vec3, fuzz: i64) -> (r: Metal)
        requires
            0 <= albedo@.0 <= ONE as int,
            0 <= albedo@.1 <= ONE as int,
            0 <= albedo@.2 <= ONE as int,
        ensures
            r.albedo == albedo,
            r.fuzz as int == fclamp(fuzz as int, 0, ONE as int),
    {
        Metal { albedo, fuzz: fx_clamp(fuzz, 0, ONE) }
    }

    /// Metallic scatter: mirror the incoming unit direction about the
    /// normal, perturb it by the fuzz radius, and absorb the ray when the
    /// perturbed direction does not leave the surface.
    pub fn scatter(&self, ray_in: &Ray, record: &HitRecord, rng: &mut Rng) -> (r: Option<
        (Vec3, Ray),
    >)
        ensures
            metal_scatter_ok(*self, *ray_in, *record, r),
    {
        let reflected = reflect(unit_vector(ray_in.direction), record.normal);
        let p = random_in_unit_sphere(rng);
        let scattered_dir = reflected.add(p.scale(self.fuzz));
        let refl = Ghost(vreflect(vunit(ray_in.direction@), record.normal@));
        if dot(scattered_dir, record.normal) > 0 {
            let result = Some((self.albedo, Ray::new(record.point, scattered_dir)));
            proof {
                assert(in_unit_ball(p@) && metal_outcome(*self, *record, refl@, p@, result));
            }
            result
        } else {
            proof {
                assert(in_unit_ball(p@) && metal_outcome(
                    *self,
                    *record,
                    refl@,
                    p@,
                    None::<(Vec3, Ray)>,
                ));
            }
            None
        }
    }
}

impl Dialectric {
    /// A dielectric material with the given (positive) refraction index.
    pub fn new(refraction_index: i64) -> (r: Dialectric)
        requires
            refraction_index > 0,
        ensures
            r.refraction_index == refraction_index,
    {
        Dialectric { refraction_index }
    }

    /// Schlick's approximation of the Fresnel reflectance.
    pub fn reflectance(cosine: i64, refraction_index: i64) -> (r: i64)
        ensures
            r as int == schlick(cosine as int, refraction_index as int),
    {
        let r0 = fx_div(fx_sub(ONE, refraction_index), fx_add(ONE, refraction_index));
        let r0sq = fx_mul(r0, r0);
        let omc = fx_sub(ONE, cosine);
        let p5 = fx_mul(fx_mul(fx_mul(fx_mul(omc, omc), omc), omc), omc);
        fx_add(r0sq, fx_mul(fx_sub(ONE, r0sq), p5))
    }

    /// Dielectric scatter: transmission or reflection, never absorption.
    /// Total internal reflection forces a reflect; otherwise a uniform
    /// draw against the Schlick reflectance picks reflection or refraction.
    pub fn scatter(&self, ray_in: &Ray, record: &HitRecord, rng: &mut Rng) -> (r: Option<
        (Vec3, Ray),
    >)
        ensures
            dialectric_scatter_ok(*self, *ray_in, *record, r),
    {
        let attenuation = Vec3::new(ONE, ONE, ONE);
        let refraction_ratio = if record.front_face {
            fx_div(ONE, self.refraction_index)
        } else {
            self.refraction_index
        };
        let unit_direction = unit_vector(ray_in.direction);
        let cos_theta = fx_min(dot(unit_direction.neg(), record.normal), ONE);
        let sin_theta = fx_sqrt(fx_sub(ONE, fx_mul(cos_theta, cos_theta)));
        let cannot_refract = fx_mul(refraction_ratio, sin_theta) > ONE;
        let q = rng.next_in(0, ONE);
        let direction = if cannot_refract || Dialectric::reflectance(cos_theta, refraction_ratio)
            > q {
            reflect(unit_direction, record.normal)
        } else {
            refract(unit_direction, record.normal, refraction_ratio)
        };
        let result = Some((attenuation, Ray::new(record.point, direction)));
        proof {
            let ratio = refraction_ratio as int;
            let ud = vunit(ray_in.direction@);
            let cos = fmin(vdot(vneg(ud), record.normal@), ONE as int);
            assert(is_unit_draw(q as int) && direction@ == (if cannot_refract || schlick(
                cos,
                ratio,
            ) > q as int {
                vreflect(ud, record.normal@)
            } else {
                vrefract(ud, record.normal@, ratio)
            }));
        }
        result
    }
}

impl Material {
    /// The single scatter operation, dispatched over the variants.
    pub fn scatter(&self, ray_in: &Ray, record: &HitRecord, rng: &mut Rng) -> (r: Option<
        (Vec3, Ray),
    >)
        ensures
            scatter_ok(*self, *ray_in, *record, r),
    {
        match self {
            Material::Lambertian(l) => l.scatter(ray_in, record, rng),
            Material::Metal(m) => m.scatter(ray_in, record, rng),
            Material::Dialectric(d) => d.scatter(ray_in, record, rng),
        }
    }
}

/// The metal reflection law: for a fuzz of zero the perturbation vanishes,
/// so the scattered direction is the exact mirror reflection of the
/// incoming unit direction about the normal (angle of reflection equals
/// angle of incidence), and absorption occurs exactly when that raw
/// reflection does not leave the surface.
pub proof fn lemma_metal_exact_reflection(
    m: Metal,
    ray_in: Ray,
    record: HitRecord,
    r: Option<(Vec3, Ray)>,
)
    requires
        m.fuzz == 0,
        metal_scatter_ok(m, ray_in, record, r),
    ensures
        ({
            let refl = vreflect(vunit(ray_in.direction@), record.normal@);
            &&& (r is Some <==> vdot(refl, record.normal@) > 0)
            &&& (r matches Some(s) ==> s.0 == m.albedo && s.1.origin == record.point
                && s.1.direction@ == refl)
        }),
{
    let refl = vreflect(vunit(ray_in.direction@), record.normal@);
    let p = choose|p: (int, int, int)| in_unit_ball(p) && metal_outcome(m, record, refl, p, r);
    crate::fixed::lemma_fmul_zero();
    assert(vmuls(p, 0) == (0int, 0int, 0int));
    assert(vadd(refl, (0int, 0int, 0int)) == refl);
}

/// Dielectric refraction with equal indices is undeviated at exact
/// head-on incidence: for a normal whose fixed-point self-dot is exactly
/// one, a unit ray arriving along `-n` refracts to `-n` again (Snell's
/// law with a ratio of one).  Away from head-on incidence the identity
/// holds only up to fixed-point rounding, not exactly.
pub proof fn lemma_refract_head_on(n: (int, int, int))
    requires
        rep_ok(n),
        vdot(n, n) == ONE as int,
    ensures
        vrefract(vneg(n), n, ONE as int) == vneg(n),
{
    crate::fixed::lemma_fmul_one();
    crate::fixed::lemma_fmul_zero();
    let uv = vneg(n);
    assert(vneg(uv) == n);
    let cos = fmin(vdot(vneg(uv), n), ONE as int);
    assert(cos == ONE as int);
    assert(vmuls(n, ONE as int) == n);
    assert(vadd(uv, n) == (0int, 0int, 0int));
    let r_perp = vmuls(vadd(uv, vmuls(n, cos)), ONE as int);
    assert(r_perp == (0int, 0int, 0int));
    assert(vlen_sq(r_perp) == 0);
    assert(fabs(fsub(ONE as int, 0)) == ONE as int);
    assert(is_sqrt_floor(65536int * 65536, 65536int)) by (nonlinear_arith);
    lemma_sqrt_floor_is(65536int * 65536);
    lemma_sqrt_floor_unique(65536int * 65536, sqrt_floor(65536int * 65536), 65536int);
    assert(fsqrt(ONE as int) == ONE as int);
    assert(fneg(ONE as int) == -(ONE as int));
    lemma_fmul_neg_right(n.0, ONE as int);
    lemma_fmul_neg_right(n.1, ONE as int);
    lemma_fmul_neg_right(n.2, ONE as int);
    assert(vmuls(n, -(ONE as int)) == vneg(n));
    assert(vadd((0int, 0int, 0int), vneg(n)) == vneg(n));
}

/// Refraction of unit direction `uv` at a surface with normal `normal`,
/// for the given ratio of refraction indices.
pub fn refract(uv: Vec3, normal: Vec3, etai_over_etat: i64) -> (r: Vec3)
    ensures
        r@ == vrefract(uv@, normal@, etai_over_etat as int),
{
    let cos_theta = fx_min(dot(uv.neg(), normal), ONE);
    let ray_out_perpendicular = uv.add(normal.scale(cos_theta)).scale(etai_over_etat);
    let ray_out_parallel = normal.scale(
        fx_neg(fx_sqrt(fx_abs(fx_sub(ONE, ray_out_perpendicular.length_squared())))),
    );
    ray_out_perpendicular.add(ray_out_parallel)
}

} // verus!
