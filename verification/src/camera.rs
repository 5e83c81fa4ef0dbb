//! Thin-lens camera: maps normalized image-plane coordinates to primary
//! rays, with a lens-disk origin jitter producing depth-of-field blur.

use vstd::prelude::*;

use crate::fixed::Fx;
use crate::rand::in_unit_ball;
use crate::rand::random_in_unit_disk;
use crate::rand::spec_disk_sample;
use crate::rand::RandomSource;
use crate::rand::MAX_REJECTION_TRIES;
use crate::ray::Ray;
use crate::vec3::cross;
use crate::vec3::spec_cross;
use crate::vec3::spec_unit;
use crate::vec3::spec_vadd;
use crate::vec3::spec_vdiv;
use crate::vec3::spec_vscale;
use crate::vec3::spec_vsub;
use crate::vec3::Point;
use crate::vec3::Vec3;

verus! {

/// Raw fixed-point value of pi.
pub const PI_RAW: i64 = 205887;

/// Odd-order polynomial approximation of the sine, accurate on the
/// half-angles a camera uses (magnitudes below pi).
pub open spec fn spec_sin_approx(x: Fx) -> Fx {
    let x2 = Fx::spec_mul(x, x);
    let x3 = Fx::spec_mul(x2, x);
    let x5 = Fx::spec_mul(x3, x2);
    let x7 = Fx::spec_mul(x5, x2);
    Fx::spec_sub(
        Fx::spec_add(
            Fx::spec_sub(x, Fx::spec_div(x3, Fx::spec_from_int(6))),
            Fx::spec_div(x5, Fx::spec_from_int(120)),
        ),
        Fx::spec_div(x7, Fx::spec_from_int(5040)),
    )
}

/// Even-order polynomial approximation of the cosine.
pub open spec fn spec_cos_approx(x: Fx) -> Fx {
    let x2 = Fx::spec_mul(x, x);
    let x4 = Fx::spec_mul(x2, x2);
    let x6 = Fx::spec_mul(x4, x2);
    Fx::spec_sub(
        Fx::spec_add(
            Fx::spec_sub(Fx { raw: 65536 }, Fx::spec_div(x2, Fx::spec_from_int(2))),
            Fx::spec_div(x4, Fx::spec_from_int(24)),
        ),
        Fx::spec_div(x6, Fx::spec_from_int(720)),
    )
}

/// Tangent as the ratio of the two polynomial approximations.
pub open spec fn spec_tan_approx(x: Fx) -> Fx {
    Fx::spec_div(spec_sin_approx(x), spec_cos_approx(x))
}

/// Sine by polynomial approximation.
pub fn sin_approx(x: Fx) -> (r: Fx)
    requires
        x.wf(),
    ensures
        r == spec_sin_approx(x),
        r.wf(),
{
    let x2 = x.mul(x);
    let x3 = x2.mul(x);
    let x5 = x3.mul(x2);
    let x7 = x5.mul(x2);
    x.sub(x3.div(Fx::from_int(6))).add(x5.div(Fx::from_int(120))).sub(
        x7.div(Fx::from_int(5040)),
    )
}

/// Cosine by polynomial approximation.
pub fn cos_approx(x: Fx) -> (r: Fx)
    requires
        x.wf(),
    ensures
        r == spec_cos_approx(x),
        r.wf(),
{
    let x2 = x.mul(x);
    let x4 = x2.mul(x2);
    let x6 = x4.mul(x2);
    Fx { raw: 65536 }.sub(x2.div(Fx::from_int(2))).add(x4.div(Fx::from_int(24))).sub(
        x6.div(Fx::from_int(720)),
    )
}

/// Tangent by polynomial approximation.
pub fn tan_approx(x: Fx) -> (r: Fx)
    requires
        x.wf(),
    ensures
        r == spec_tan_approx(x),
        r.wf(),
{
    sin_approx(x).div(cos_approx(x))
}

/// The configuration a camera is derived from.
#[derive(Clone, Copy, Debug, PartialEq, Eq, Structural)]
pub struct CameraConfig {
    pub lookfrom: Point,
    pub lookat: Point,
    pub vup: Vec3,
    pub vfov: Fx,
    pub aspect_ratio: Fx,
    pub aperture: Fx,
    pub focus_dist: Fx,
}

impl CameraConfig {
    pub open spec fn wf(self) -> bool {
        &&& self.lookfrom.wf()
        &&& self.lookat.wf()
        &&& self.vup.wf()
        &&& self.vfov.wf()
        &&& self.aspect_ratio.wf()
        &&& self.aperture.wf()
        &&& self.focus_dist.wf()
    }
}

/// Immutable projection state derived once from a configuration.
#[derive(Clone, Copy, Debug, PartialEq, Eq, Structural)]
pub struct Camera {
    pub origin: Point,
    pub horizontal: Vec3,
    pub vertical: Vec3,
    pub lower_left_corner: Point,
    pub lens_radius: Fx,
    pub u: Vec3,
    pub v: Vec3,
}

/// The projection state a configuration determines: an orthonormal-by
/// construction basis `(u, v, w)` with `w` pointing from look-at to
/// look-from, viewport extents from the field of view and aspect ratio,
/// and span vectors scaled by the focus distance so the focal plane sits
/// exactly there.
pub open spec fn spec_camera(config: CameraConfig) -> Camera {
    let theta = Fx::spec_mul(Fx::spec_div(config.vfov, Fx::spec_from_int(180)), Fx { raw: PI_RAW });
    let w = spec_unit(spec_vsub(config.lookfrom, config.lookat));
    let u = spec_unit(spec_cross(config.vup, w));
    let v = spec_unit(spec_cross(w, u));
    let h = spec_tan_approx(Fx::spec_div(theta, Fx::spec_from_int(2)));
    let viewport_height = Fx::spec_mul(h, Fx::spec_from_int(2));
    let viewport_width = Fx::spec_mul(viewport_height, config.aspect_ratio);
    let origin = config.lookfrom;
    let horizontal = spec_vscale(spec_vscale(u, viewport_width), config.focus_dist);
    let vertical = spec_vscale(spec_vscale(v, viewport_height), config.focus_dist);
    let lower_left_corner = spec_vsub(
        spec_vsub(
            spec_vsub(origin, spec_vdiv(horizontal, Fx::spec_from_int(2))),
            spec_vdiv(vertical, Fx::spec_from_int(2)),
        ),
        spec_vscale(w, config.focus_dist),
    );
    Camera {
        origin,
        horizontal,
        vertical,
        lower_left_corner,
        lens_radius: Fx::spec_div(config.aperture, Fx::spec_from_int(2)),
        u,
        v,
    }
}

/// The ray a camera emits for image-plane coordinates `(u, v)` and a lens
/// sample `rd`: the origin is offset across the lens disk, and the
/// direction points at the focus-plane spot for `(u, v)`.
pub open spec fn spec_get_ray(cam: Camera, u: Fx, v: Fx, rd: Vec3) -> Ray {
    let scaled = spec_vscale(rd, cam.lens_radius);
    let offset = spec_vadd(spec_vscale(cam.u, scaled.x), spec_vscale(cam.v, scaled.y));
    Ray {
        origin: spec_vadd(cam.origin, offset),
        d: spec_vsub(
            spec_vsub(
                spec_vadd(
                    spec_vadd(cam.lower_left_corner, spec_vscale(cam.vertical, u)),
                    spec_vscale(cam.horizontal, v),
                ),
                cam.origin,
            ),
            offset,
        ),
    }
}

impl Camera {
    pub open spec fn wf(self) -> bool {
        &&& self.origin.wf()
        &&& self.horizontal.wf()
        &&& self.vertical.wf()
        &&& self.lower_left_corner.wf()
        &&& self.lens_radius.wf()
        &&& self.u.wf()
        &&& self.v.wf()
    }

    /// Derive the projection state from a configuration.
    pub fn new(config: CameraConfig) -> (cam: Camera)
        requires
            config.wf(),
        ensures
            cam == spec_camera(config),
            cam.wf(),
    {
        let theta = config.vfov.div(Fx::from_int(180)).mul(Fx { raw: PI_RAW });

        let w = config.lookfrom.sub(config.lookat).unit();
        let u = cross(config.vup, w).unit();
        let v = cross(w, u).unit();

        let h = tan_approx(theta.div(Fx::from_int(2)));
        let viewport_height = h.mul(Fx::from_int(2));
        let viewport_width = viewport_height.mul(config.aspect_ratio);

        let origin: Point = config.lookfrom;
        let horizontal = u.scale(viewport_width).scale(config.focus_dist);
        let vertical = v.scale(viewport_height).scale(config.focus_dist);
        let lower_left_corner = origin.sub(horizontal.div(Fx::from_int(2))).sub(
            vertical.div(Fx::from_int(2)),
        ).sub(w.scale(config.focus_dist));

        let lens_radius = config.aperture.div(Fx::from_int(2));

        Camera { origin, horizontal, vertical, lower_left_corner, lens_radius, u, v }
    }

    /// Emit the primary ray for normalized image-plane coordinates
    /// `(u, v)`, jittering the origin over the lens disk.
    pub fn get_ray(&self, u: Fx, v: Fx, rng: &mut RandomSource) -> (r: Ray)
        requires
            self.wf(),
            u.wf(),
            v.wf(),
        ensures
            r == spec_get_ray(
                *self,
                u,
                v,
                spec_disk_sample(old(rng).state, MAX_REJECTION_TRIES as nat).0,
            ),
            final(rng).state == spec_disk_sample(old(rng).state, MAX_REJECTION_TRIES as nat).1,
            exists|rd: Vec3|
                in_unit_ball(rd) && rd.z.raw == 0 && r == spec_get_ray(*self, u, v, rd),
            r.wf(),
    {
        let rd = random_in_unit_disk(rng);
        let scaled = rd.scale(self.lens_radius);
        let offset = self.u.scale(scaled.x).add(self.v.scale(scaled.y));
        let r = Ray {
            origin: self.origin.add(offset),
            d: self.lower_left_corner.add(self.vertical.scale(u)).add(
                self.horizontal.scale(v),
            ).sub(self.origin).sub(offset),
        };
        proof {
            assert(in_unit_ball(rd) && rd.z.raw == 0 && r == spec_get_ray(*self, u, v, rd));
        }
        r
    }
}

} // verus!
