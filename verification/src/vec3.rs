//! The 3-component vector primitive, used interchangeably as point,
//! direction, and color.
//!
//! Every component is a fixed-point scalar (see [`crate::fixed`]); the spec
//! functions below pin each operation down exactly over integer triples.

use crate::fixed::{
    fadd, fdiv, fmul, fneg, fsqrt, fsub, fx_add, fx_div, fx_mul, fx_neg, fx_sqrt, fx_sub, FIX_MAX,
    HALF, ONE, TWO,
};
use crate::rng::Rng;
use vstd::prelude::*;

verus! {

/// A vector of three fixed-point scalars.
#[derive(Clone, Copy, Debug, PartialEq, Eq, Structural)]
pub struct Vec3 {
    pub x: i64,
    pub y: i64,
    pub z: i64,
}

impl View for Vec3 {
    type V = (int, int, int);

    open spec fn view(&self) -> (int, int, int) {
        (self.x as int, self.y as int, self.z as int)
    }
}

/// Component-wise vector addition.
pub open spec fn vadd(a: (int, int, int), b: (int, int, int)) -> (int, int, int) {
    (fadd(a.0, b.0), fadd(a.1, b.1), fadd(a.2, b.2))
}

/// Component-wise vector subtraction.
pub open spec fn vsub(a: (int, int, int), b: (int, int, int)) -> (int, int, int) {
    (fsub(a.0, b.0), fsub(a.1, b.1), fsub(a.2, b.2))
}

/// Vector negation.
pub open spec fn vneg(a: (int, int, int)) -> (int, int, int) {
    (fneg(a.0), fneg(a.1), fneg(a.2))
}

/// Component-wise (Hadamard) vector product.
pub open spec fn vmul(a: (int, int, int), b: (int, int, int)) -> (int, int, int) {
    (fmul(a.0, b.0), fmul(a.1, b.1), fmul(a.2, b.2))
}

/// Vector scaled by a scalar.
pub open spec fn vmuls(a: (int, int, int), k: int) -> (int, int, int) {
    (fmul(a.0, k), fmul(a.1, k), fmul(a.2, k))
}

/// Vector divided by a scalar.
pub open spec fn vdivs(a: (int, int, int), k: int) -> (int, int, int) {
    (fdiv(a.0, k), fdiv(a.1, k), fdiv(a.2, k))
}

/// Dot product, with the exec code's left-to-right summation order.
pub open spec fn vdot(a: (int, int, int), b: (int, int, int)) -> int {
    fadd(fadd(fmul(a.0, b.0), fmul(a.1, b.1)), fmul(a.2, b.2))
}

/// Cross product.
pub open spec fn vcross(a: (int, int, int), b: (int, int, int)) -> (int, int, int) {
    (
        fsub(fmul(a.1, b.2), fmul(a.2, b.1)),
        fsub(fmul(a.2, b.0), fmul(a.0, b.2)),
        fsub(fmul(a.0, b.1), fmul(a.1, b.0)),
    )
}

/// Squared length.
pub open spec fn vlen_sq(a: (int, int, int)) -> int {
    vdot(a, a)
}

/// Length.
pub open spec fn vlen(a: (int, int, int)) -> int {
    fsqrt(vlen_sq(a))
}

/// The vector scaled to unit length by dividing by its length (division by
/// a zero length saturates and propagates, as a floating-point infinity
/// would).
pub open spec fn vunit(a: (int, int, int)) -> (int, int, int) {
    vdivs(a, vlen(a))
}

/// All components below the degenerate-direction guard, which is smaller
/// than one fixed-point step: that is, exactly zero.
pub open spec fn vnear_zero(a: (int, int, int)) -> bool {
    a.0 == 0 && a.1 == 0 && a.2 == 0
}

/// Mirror of `v` about the plane with normal `n`: `v - 2*dot(v, n)*n`.
pub open spec fn vreflect(v: (int, int, int), n: (int, int, int)) -> (int, int, int) {
    vsub(v, vmuls(n, fmul(TWO as int, vdot(v, n))))
}

/// A point strictly inside the unit ball, as the rejection sampler
/// produces it: components drawn from `[-1, 1)`, squared length below one.
pub open spec fn in_unit_ball(p: (int, int, int)) -> bool {
    &&& -(ONE as int) <= p.0 < ONE as int
    &&& -(ONE as int) <= p.1 < ONE as int
    &&& -(ONE as int) <= p.2 < ONE as int
    &&& vlen_sq(p) < ONE as int
}

/// A point strictly inside the unit disk of the xy-plane.
pub open spec fn in_unit_disk(p: (int, int, int)) -> bool {
    in_unit_ball(p) && p.2 == 0
}

/// Every component is a representable scalar (every vector an operation of
/// this module hands back satisfies this; only a raw `i64::MIN` component
/// fed in from outside does not).
pub open spec fn rep_ok(v: (int, int, int)) -> bool {
    &&& -(FIX_MAX as int) <= v.0 <= FIX_MAX as int
    &&& -(FIX_MAX as int) <= v.1 <= FIX_MAX as int
    &&& -(FIX_MAX as int) <= v.2 <= FIX_MAX as int
}

/// Negating one factor negates a saturating product.
pub proof fn lemma_fmul_neg_right(a: int, b: int)
    requires
        -(FIX_MAX as int) <= b <= FIX_MAX as int,
    ensures
        fmul(a, fneg(b)) == fneg(fmul(a, b)),
{
    assert(a * (-b) == -(a * b)) by (nonlinear_arith);
}

/// Negating the right operand negates the dot product.
pub proof fn lemma_vdot_neg_right(d: (int, int, int), n: (int, int, int))
    requires
        rep_ok(n),
    ensures
        vdot(d, vneg(n)) == fneg(vdot(d, n)),
{
    lemma_fmul_neg_right(d.0, n.0);
    lemma_fmul_neg_right(d.1, n.1);
    lemma_fmul_neg_right(d.2, n.2);
}

/// The squared length of any vector is nonnegative.
pub proof fn lemma_vlen_sq_nonneg(a: (int, int, int))
    ensures
        vlen_sq(a) >= 0,
{
    broadcast use vstd::arithmetic::div_mod::lemma_div_pos_is_pos;

    assert(a.0 * a.0 >= 0 && a.1 * a.1 >= 0 && a.2 * a.2 >= 0) by (nonlinear_arith);
}

impl Vec3 {
    /// Build a vector from its components.
    pub fn new(x: i64, y: i64, z: i64) -> (r: Vec3)
        ensures
            r@ == (x as int, y as int, z as int),
    {
        Vec3 { x, y, z }
    }

    /// Squared length of the vector.
    pub fn length_squared(&self) -> (r: i64)
        ensures
            r as int == vlen_sq(self@),
            r >= 0,
    {
        proof {
            lemma_vlen_sq_nonneg(self@);
        }
        fx_add(fx_add(fx_mul(self.x, self.x), fx_mul(self.y, self.y)), fx_mul(self.z, self.z))
    }

    /// Length of the vector.
    pub fn length(&self) -> (r: i64)
        ensures
            r as int == vlen(self@),
            r >= 0,
    {
        fx_sqrt(self.length_squared())
    }

    /// Negation.
    pub fn neg(self) -> (r: Vec3)
        ensures
            r@ == vneg(self@),
    {
        Vec3 { x: fx_neg(self.x), y: fx_neg(self.y), z: fx_neg(self.z) }
    }

    /// Vector sum.
    pub fn add(self, rhs: Vec3) -> (r: Vec3)
        ensures
            r@ == vadd(self@, rhs@),
    {
        Vec3 { x: fx_add(self.x, rhs.x), y: fx_add(self.y, rhs.y), z: fx_add(self.z, rhs.z) }
    }

    /// Vector difference.
    pub fn sub(self, rhs: Vec3) -> (r: Vec3)
        ensures
            r@ == vsub(self@, rhs@),
    {
        Vec3 { x: fx_sub(self.x, rhs.x), y: fx_sub(self.y, rhs.y), z: fx_sub(self.z, rhs.z) }
    }

    /// Component-wise product.
    pub fn mul(self, rhs: Vec3) -> (r: Vec3)
        ensures
            r@ == vmul(self@, rhs@),
    {
        Vec3 { x: fx_mul(self.x, rhs.x), y: fx_mul(self.y, rhs.y), z: fx_mul(self.z, rhs.z) }
    }

    /// The vector scaled by a scalar (scaling is commutative, so this
    /// stands for scalar-times-vector as well).
    pub fn scale(self, rhs: i64) -> (r: Vec3)
        ensures
            r@ == vmuls(self@, rhs as int),
    {
        Vec3 { x: fx_mul(self.x, rhs), y: fx_mul(self.y, rhs), z: fx_mul(self.z, rhs) }
    }

    /// The vector divided by a scalar.
    pub fn div(self, rhs: i64) -> (r: Vec3)
        ensures
            r@ == vdivs(self@, rhs as int),
    {
        Vec3 { x: fx_div(self.x, rhs), y: fx_div(self.y, rhs), z: fx_div(self.z, rhs) }
    }

    /// Add a scalar to every component.
    pub fn add_assign(&mut self, rhs: i64)
        ensures
            final(self)@ == (
                fadd(old(self)@.0, rhs as int),
                fadd(old(self)@.1, rhs as int),
                fadd(old(self)@.2, rhs as int),
            ),
    {
        self.x = fx_add(self.x, rhs);
        self.y = fx_add(self.y, rhs);
        self.z = fx_add(self.z, rhs);
    }

    /// Add a vector in place.
    pub fn add_assign_v(&mut self, rhs: Vec3)
        ensures
            final(self)@ == vadd(old(self)@, rhs@),
    {
        self.x = fx_add(self.x, rhs.x);
        self.y = fx_add(self.y, rhs.y);
        self.z = fx_add(self.z, rhs.z);
    }

    /// Scale every component in place.
    pub fn mul_assign(&mut self, rhs: i64)
        ensures
            final(self)@ == vmuls(old(self)@, rhs as int),
    {
        self.x = fx_mul(self.x, rhs);
        self.y = fx_mul(self.y, rhs);
        self.z = fx_mul(self.z, rhs);
    }

    /// Multiply component-wise in place.
    pub fn mul_assign_v(&mut self, rhs: Vec3)
        ensures
            final(self)@ == vmul(old(self)@, rhs@),
    {
        self.x = fx_mul(self.x, rhs.x);
        self.y = fx_mul(self.y, rhs.y);
        self.z = fx_mul(self.z, rhs.z);
    }

    /// Divide every component in place.
    pub fn div_assign(&mut self, rhs: i64)
        ensures
            final(self)@ == vdivs(old(self)@, rhs as int),
    {
        self.x = fx_div(self.x, rhs);
        self.y = fx_div(self.y, rhs);
        self.z = fx_div(self.z, rhs);
    }

    /// Whether every component is below the degenerate-direction guard.
    pub fn near_zero(&self) -> (r: bool)
        ensures
            r == vnear_zero(self@),
    {
        self.x == 0 && self.y == 0 && self.z == 0
    }

    /// A vector with each component drawn uniformly from `[min, max)`.
    pub fn random(rng: &mut Rng, min: i64, max: i64) -> (r: Vec3)
        requires
            min < max,
        ensures
            min <= r@.0 < max,
            min <= r@.1 < max,
            min <= r@.2 < max,
    {
        Vec3 { x: rng.next_in(min, max), y: rng.next_in(min, max), z: rng.next_in(min, max) }
    }
}

/// Dot product.
pub fn dot(u: Vec3, v: Vec3) -> (r: i64)
    ensures
        r as int == vdot(u@, v@),
{
    fx_add(fx_add(fx_mul(u.x, v.x), fx_mul(u.y, v.y)), fx_mul(u.z, v.z))
}

/// Cross product.
pub fn cross(u: Vec3, v: Vec3) -> (r: Vec3)
    ensures
        r@ == vcross(u@, v@),
{
    Vec3 {
        x: fx_sub(fx_mul(u.y, v.z), fx_mul(u.z, v.y)),
        y: fx_sub(fx_mul(u.z, v.x), fx_mul(u.x, v.z)),
        z: fx_sub(fx_mul(u.x, v.y), fx_mul(u.y, v.x)),
    }
}

/// The vector scaled to unit length.
pub fn unit_vector(v: Vec3) -> (r: Vec3)
    ensures
        r@ == vunit(v@),
{
    v.div(v.length())
}

/// Mirror `v` about the plane with normal `n`.
pub fn reflect(v: Vec3, n: Vec3) -> (r: Vec3)
    ensures
        r@ == vreflect(v@, n@),
{
    v.sub(n.scale(fx_mul(TWO, dot(v, n))))
}

/// How many rejected draws a rejection sampler accepts before it falls
/// back to a fixed interior point.  Each draw lands inside the ball with
/// probability about one half, so the fallback is vanishingly rare; a bound
/// is needed because every loop here provably terminates.
pub const SAMPLE_TRIES: u32 = 64;

/// Rejection-sample a point uniformly inside the unit ball.
pub fn random_in_unit_sphere(rng: &mut Rng) -> (r: Vec3)
    ensures
        in_unit_ball(r@),
{
    let mut tries: u32 = SAMPLE_TRIES;
    while tries > 0
        decreases tries,
    {
        let p = Vec3::new(
            rng.next_in(-ONE, ONE),
            rng.next_in(-ONE, ONE),
            rng.next_in(-ONE, ONE),
        );
        if p.length_squared() < ONE {
            return p;
        }
        tries = tries - 1;
    }
    Vec3::new(HALF, 0, 0)
}

/// A unit-length vector with uniformly random direction: a unit-ball sample
/// scaled to unit length.
pub fn random_unit_vector(rng: &mut Rng) -> (r: Vec3)
    ensures
        exists|p: (int, int, int)| in_unit_ball(p) && r@ == vunit(p),
{
    let p = random_in_unit_sphere(rng);
    let u = unit_vector(p);
    proof {
        assert(in_unit_ball(p@) && u@ == vunit(p@));
    }
    u
}

/// Rejection-sample a point uniformly inside the unit disk of the xy-plane.
pub fn random_in_unit_disk(rng: &mut Rng) -> (r: Vec3)
    ensures
        in_unit_disk(r@),
{
    let mut tries: u32 = SAMPLE_TRIES;
    while tries > 0
        decreases tries,
    {
        let p = Vec3::new(rng.next_in(-ONE, ONE), rng.next_in(-ONE, ONE), 0);
        if p.length_squared() < ONE {
            return p;
        }
        tries = tries - 1;
    }
    Vec3::new(HALF, 0, 0)
}

/// A unit-ball sample folded into the hemisphere around `normal`.
pub fn random_in_hemisphere(rng: &mut Rng, normal: Vec3) -> (r: Vec3)
    ensures
        exists|p: (int, int, int)|
            in_unit_ball(p) && r@ == (if vdot(p, normal@) > 0 {
                p
            } else {
                vneg(p)
            }),
{
    let p = random_in_unit_sphere(rng);
    if dot(p, normal) > 0 {
        proof {
            assert(in_unit_ball(p@) && p@ == (if vdot(p@, normal@) > 0 {
                p@
            } else {
                vneg(p@)
            }));
        }
        p
    } else {
        let q = p.neg();
        proof {
            assert(in_unit_ball(p@) && q@ == (if vdot(p@, normal@) > 0 {
                p@
            } else {
                vneg(p@)
            }));
        }
        q
    }
}

} // verus!
