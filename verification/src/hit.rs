//! The intersection contract: hit records, normal orientation, and the
//! scene container with its nearest-hit aggregation.

use crate::material::Material;
use crate::ray::Ray;
use crate::vec3::{dot, lemma_vdot_neg_right, rep_ok, vdot, vneg, Vec3};
use vstd::prelude::*;

verus! {

/// The ghost image of a hit record, over integer triples.
pub struct HitInfo {
    pub point: (int, int, int),
    pub normal: (int, int, int),
    pub t: int,
    pub front_face: bool,
    pub material: Material,
}

/// Transient result of an intersection test: the hit point, the surface
/// normal oriented against the incoming ray, the ray parameter, which side
/// was struck, and the material of the struck surface.
pub struct HitRecord {
    pub point: Vec3,
    pub normal: Vec3,
    pub t: i64,
    pub front_face: bool,
    pub material: Material,
}

impl View for HitRecord {
    type V = HitInfo;

    open spec fn view(&self) -> HitInfo {
        HitInfo {
            point: self.point@,
            normal: self.normal@,
            t: self.t as int,
            front_face: self.front_face,
            material: self.material,
        }
    }
}

/// Orientation of an outward normal against a ray direction: front-face
/// when the ray approaches from outside, and the stored normal is the
/// outward normal or its negation so that it opposes the incoming ray.
pub open spec fn face_normal_s(direction: (int, int, int), outward: (int, int, int)) -> (
    bool,
    (int, int, int),
) {
    if vdot(direction, outward) < 0 {
        (true, outward)
    } else {
        (false, vneg(outward))
    }
}

/// The front-face flag and the oriented normal for a ray striking a
/// surface whose outward normal is `outward_normal`.
pub fn face_normal(ray: &Ray, outward_normal: Vec3) -> (r: (bool, Vec3))
    ensures
        r.0 == face_normal_s(ray.direction@, outward_normal@).0,
        r.1@ == face_normal_s(ray.direction@, outward_normal@).1,
{
    let front_face = dot(ray.direction, outward_normal) < 0;
    if front_face {
        (front_face, outward_normal)
    } else {
        (front_face, outward_normal.neg())
    }
}

/// The oriented normal never has positive projection on the ray direction.
pub proof fn lemma_face_normal_opposes(direction: (int, int, int), outward: (int, int, int))
    requires
        rep_ok(outward),
    ensures
        vdot(direction, face_normal_s(direction, outward).1) <= 0,
{
    if vdot(direction, outward) >= 0 {
        lemma_vdot_neg_right(direction, outward);
    }
}

/// The intersection contract: any object that can report its nearest
/// intersection with a ray inside a parameter interval.
pub trait Hit: Sized {
    /// The ghost intersection function the executable `hit` agrees with.
    spec fn hit_s(self, ray: Ray, t_min: int, t_max: int) -> Option<HitInfo>;

    /// The nearest intersection with parameter in `[t_min, t_max]`, or
    /// none.  Any returned record's normal opposes the incoming ray.
    fn hit(&self, ray: &Ray, t_min: i64, t_max: i64) -> (r: Option<HitRecord>)
        ensures
            (r is Some <==> self.hit_s(*ray, t_min as int, t_max as int) is Some),
            r matches Some(rec) ==> self.hit_s(*ray, t_min as int, t_max as int) == Some(rec@),
            r matches Some(rec) ==> t_min <= rec.t <= t_max,
            r matches Some(rec) ==> vdot(ray.direction@, rec.normal@) <= 0,
    ;
}

/// Nearest-hit fold over the members in insertion order: each member is
/// queried with the interval narrowed to the closest hit found so far,
/// and the last surviving record wins.
pub open spec fn scene_hit_s<T: Hit>(objs: Seq<T>, ray: Ray, t_min: int, t_max: int) -> Option<
    HitInfo,
>
    decreases objs.len(),
{
    if objs.len() == 0 {
        None::<HitInfo>
    } else {
        let prev = scene_hit_s(objs.drop_last(), ray, t_min, t_max);
        let closest = match prev {
            Some(h) => h.t,
            None => t_max,
        };
        match objs.last().hit_s(ray, t_min, closest) {
            Some(h2) => Some(h2),
            None => prev,
        }
    }
}

/// An ordered sequence of intersectable objects: the scene.  Append-only
/// during construction, read-only during rendering; insertion order is
/// irrelevant to results (nearest hit only).
pub struct Hittables<T> {
    objects: Vec<T>,
}

impl<T> View for Hittables<T> {
    type V = Seq<T>;

    closed spec fn view(&self) -> Seq<T> {
        self.objects@
    }
}

impl<T: Hit> Hittables<T> {
    /// An empty scene.
    pub fn new() -> (r: Self)
        ensures
            r@ == Seq::<T>::empty(),
    {
        Hittables { objects: Vec::new() }
    }

    /// Remove every object.
    pub fn clear(&mut self)
        ensures
            final(self)@ == Seq::<T>::empty(),
    {
        self.objects.clear();
    }

    /// Append an object to the scene.
    pub fn add(&mut self, hittable: T)
        ensures
            final(self)@ == old(self)@.push(hittable),
    {
        self.objects.push(hittable);
    }

    /// The single closest hit across all members, or none: the members are
    /// scanned in insertion order, narrowing the valid interval to the
    /// closest parameter found so far.
    pub fn hit(&self, ray: &Ray, t_min: i64, t_max: i64) -> (r: Option<HitRecord>)
        ensures
            (r is Some <==> scene_hit_s(self@, *ray, t_min as int, t_max as int) is Some),
            r matches Some(rec) ==> scene_hit_s(self@, *ray, t_min as int, t_max as int) == Some(
                rec@,
            ),
            r matches Some(rec) ==> t_min <= rec.t <= t_max,
            r matches Some(rec) ==> vdot(ray.direction@, rec.normal@) <= 0,
    {
        let mut hit_record: Option<HitRecord> = None;
        let mut closest_to: i64 = t_max;
        let mut i: usize = 0;
        while i < self.objects.len()
            invariant
                i <= self.objects.len(),
                (hit_record is Some <==> scene_hit_s(
                    self@.take(i as int),
                    *ray,
                    t_min as int,
                    t_max as int,
                ) is Some),
                hit_record matches Some(rec) ==> scene_hit_s(
                    self@.take(i as int),
                    *ray,
                    t_min as int,
                    t_max as int,
                ) == Some(rec@),
                closest_to as int == (match scene_hit_s(
                    self@.take(i as int),
                    *ray,
                    t_min as int,
                    t_max as int,
                ) {
                    Some(h) => h.t,
                    None => t_max as int,
                }),
                hit_record matches Some(rec) ==> t_min <= rec.t <= t_max,
                hit_record matches Some(rec) ==> vdot(ray.direction@, rec.normal@) <= 0,
            decreases self.objects.len() - i,
        {
            proof {
                assert(self@.take(i as int + 1).drop_last() =~= self@.take(i as int));
                assert(self@.take(i as int + 1).last() == self@[i as int]);
            }
            match self.objects[i].hit(ray, t_min, closest_to) {
                Some(new_record) => {
                    closest_to = new_record.t;
                    hit_record = Some(new_record);
                },
                None => {},
            }
            i = i + 1;
        }
        proof {
            assert(self@.take(self.objects@.len() as int) =~= self@);
        }
        hit_record
    }
}

} // verus!
