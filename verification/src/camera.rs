//! The thin-lens camera: converts normalized image-plane coordinates into
//! world-space rays, with optional depth-of-field lens sampling.

use crate::fixed::{fdiv, fmul, fx_div, fx_mul, TWO};
use crate::ray::Ray;
use crate::rng::Rng;
use crate::vec3::{
    cross, in_unit_disk, random_in_unit_disk, unit_vector, vadd, vcross, vdivs, vmuls, vsub,
    vunit, Vec3,
};
use vstd::prelude::*;

verus! {

/// The derived camera frame, immutable once constructed: the eye, the two
/// vectors spanning the image plane, the plane's lower-left corner in
/// world space, the orthonormal basis `u, v, w`, and the lens radius.
pub struct Camera {
    pub origin: Vec3,
    pub horizontal: Vec3,
    pub vertical: Vec3,
    pub lower_left_corner: Vec3,
    pub w: Vec3,
    pub u: Vec3,
    pub v: Vec3,
    pub lens_radius: i64,
}

/// The lens offset for a unit-disk sample `p`: `u * rd.x + v * rd.y` with
/// `rd = lens_radius * p`.
pub open spec fn camera_offset(cam: Camera, p: (int, int, int)) -> (int, int, int) {
    let rd = vmuls(p, cam.lens_radius as int);
    vadd(vmuls(cam.u@, rd.0), vmuls(cam.v@, rd.1))
}

/// Where a camera ray with lens offset `off` starts.
pub open spec fn camera_ray_origin(cam: Camera, off: (int, int, int)) -> (int, int, int) {
    vadd(cam.origin@, off)
}

/// Where a camera ray through image coordinates `(s, t)` with lens offset
/// `off` points.
pub open spec fn camera_ray_direction(cam: Camera, s: int, t: int, off: (int, int, int)) -> (
    int,
    int,
    int,
) {
    vsub(
        vsub(
            vadd(vadd(cam.lower_left_corner@, vmuls(cam.horizontal@, s)), vmuls(cam.vertical@, t)),
            cam.origin@,
        ),
        off,
    )
}

impl Camera {
    /// Build the camera frame from eye position, look-at target, an "up"
    /// hint, the tangent of half the vertical field of view (trigonometry
    /// has no closed fixed-point form, so the caller supplies the
    /// tangent), the aspect ratio, and the aperture and focus distance of
    /// the thin lens.
    pub fn new(
        look_from: Vec3,
        look_at: Vec3,
        vertical_up: Vec3,
        tan_half_fov: i64,
        aspect_ratio: i64,
        aperture: i64,
        focus_dist: i64,
    ) -> (r: Camera)
        ensures
            r.origin == look_from,
            r.w@ == vunit(vsub(look_from@, look_at@)),
            r.u@ == vunit(vcross(vertical_up@, r.w@)),
            r.v@ == vcross(r.w@, r.u@),
            r.horizontal@ == vmuls(
                r.u@,
                fmul(
                    focus_dist as int,
                    fmul(aspect_ratio as int, fmul(TWO as int, tan_half_fov as int)),
                ),
            ),
            r.vertical@ == vmuls(
                r.v@,
                fmul(focus_dist as int, fmul(TWO as int, tan_half_fov as int)),
            ),
            r.lower_left_corner@ == vsub(
                vsub(vsub(look_from@, vdivs(r.horizontal@, TWO as int)), vdivs(r.vertical@, TWO as int)),
                vmuls(r.w@, focus_dist as int),
            ),
            r.lens_radius as int == fdiv(aperture as int, TWO as int),
    {
        let viewport_height = fx_mul(TWO, tan_half_fov);
        let viewport_width = fx_mul(aspect_ratio, viewport_height);
        let w = unit_vector(look_from.sub(look_at));
        let u = unit_vector(cross(vertical_up, w));
        let v = cross(w, u);
        let origin = look_from;
        let horizontal = u.scale(fx_mul(focus_dist, viewport_width));
        let vertical = v.scale(fx_mul(focus_dist, viewport_height));
        let lower_left_corner = origin
            .sub(horizontal.div(TWO))
            .sub(vertical.div(TWO))
            .sub(w.scale(focus_dist));
        let lens_radius = fx_div(aperture, TWO);
        Camera { origin, horizontal, vertical, lower_left_corner, w, u, v, lens_radius }
    }

    /// The world-space ray through normalized image coordinates `(s, t)`:
    /// the origin is offset by a lens sample (none when the lens radius is
    /// zero), defocusing objects away from the focus plane.
    pub fn get_ray(&self, s: i64, t: i64, rng: &mut Rng) -> (r: Ray)
        ensures
            exists|p: (int, int, int)|
                #[trigger] in_unit_disk(p) && r.origin@ == camera_ray_origin(
                    *self,
                    camera_offset(*self, p),
                ) && r.direction@ == camera_ray_direction(
                    *self,
                    s as int,
                    t as int,
                    camera_offset(*self, p),
                ),
            self.lens_radius == 0 ==> r.origin@ == camera_ray_origin(*self, (0int, 0int, 0int))
                && r.direction@ == camera_ray_direction(
                *self,
                s as int,
                t as int,
                (0int, 0int, 0int),
            ),
    {
        let p = random_in_unit_disk(rng);
        let rd = p.scale(self.lens_radius);
        let offset = self.u.scale(rd.x).add(self.v.scale(rd.y));
        let direction = self
            .lower_left_corner
            .add(self.horizontal.scale(s))
            .add(self.vertical.scale(t))
            .sub(self.origin)
            .sub(offset);
        let r = Ray::new(self.origin.add(offset), direction);
        proof {
            if self.lens_radius == 0 {
                crate::fixed::lemma_fmul_zero();
                assert(camera_offset(*self, p@) == (0int, 0int, 0int));
            }
            assert(in_unit_disk(p@) && r.origin@ == camera_ray_origin(
                *self,
                camera_offset(*self, p@),
            ) && r.direction@ == camera_ray_direction(
                *self,
                s as int,
                t as int,
                camera_offset(*self, p@),
            ));
        }
        r
    }
}

} // verus!
