//! The camera: maps normalized image-plane coordinates to world-space rays,
//! from a viewing frustum derived from eye position, look target, up vector,
//! vertical field of view and aspect ratio.

use vstd::prelude::*;
use crate::fixed::{fadd, fsub, fmul, fdiv};
use crate::fixed::{fx_add, fx_sub, fx_mul, fx_div, FX_ONE, FX_TWO};
use crate::ray::Ray;
use crate::vec3::{Vec3, vadd, vsub, vscale, cross_spec, unit_spec};

verus! {

/// Fixed-point representation of the circle constant pi.
pub const FX_PI: i64 = 205887;

/// Sine, as the Maclaurin series truncated after the seventh power,
/// evaluated in fixed point. Accurate for the half-angles of any
/// reasonable field of view (arguments below a right angle).
pub open spec fn sin_spec(x: i64) -> i64 {
    let x2 = fmul(x, x);
    let x3 = fmul(x2, x);
    let x5 = fmul(x3, x2);
    let x7 = fmul(x5, x2);
    fsub(fadd(fsub(x, fdiv(x3, 393216)), fdiv(x5, 7864320)), fdiv(x7, 330301440))
}

/// Cosine, as the Maclaurin series truncated after the sixth power,
/// evaluated in fixed point.
pub open spec fn cos_spec(x: i64) -> i64 {
    let x2 = fmul(x, x);
    let x4 = fmul(x2, x2);
    let x6 = fmul(x4, x2);
    fsub(fadd(fsub(FX_ONE, fdiv(x2, 131072)), fdiv(x4, 1572864)), fdiv(x6, 47185920))
}

/// Tangent: the quotient of the two series.
pub open spec fn tan_spec(x: i64) -> i64 {
    fdiv(sin_spec(x), cos_spec(x))
}

/// Evaluate the truncated sine series.
pub fn fx_sin(x: i64) -> (r: i64)
    ensures
        r == sin_spec(x),
{
    let x2 = fx_mul(x, x);
    let x3 = fx_mul(x2, x);
    let x5 = fx_mul(x3, x2);
    let x7 = fx_mul(x5, x2);
    fx_sub(fx_add(fx_sub(x, fx_div(x3, 393216)), fx_div(x5, 7864320)), fx_div(x7, 330301440))
}

/// Evaluate the truncated cosine series.
pub fn fx_cos(x: i64) -> (r: i64)
    ensures
        r == cos_spec(x),
{
    let x2 = fx_mul(x, x);
    let x4 = fx_mul(x2, x2);
    let x6 = fx_mul(x4, x2);
    fx_sub(fx_add(fx_sub(FX_ONE, fx_div(x2, 131072)), fx_div(x4, 1572864)), fx_div(x6, 47185920))
}

/// Evaluate the tangent approximation.
pub fn fx_tan(x: i64) -> (r: i64)
    ensures
        r == tan_spec(x),
{
    fx_div(fx_sin(x), fx_cos(x))
}

/// A camera derived once per render: eye position, lower-left image-plane
/// corner, and the two image-plane basis vectors.
#[derive(Clone, Copy, Debug, PartialEq, Eq, Structural)]
pub struct Camera {
    pub origin: Vec3,
    pub lower_left_corner: Vec3,
    pub horizontal: Vec3,
    pub vertical: Vec3,
}

/// The frustum that `Camera::new` derives: half the field of view (in
/// degrees) gives the half-height as its tangent, the aspect ratio scales
/// it into the half-width, and `(u, v, w)` is the orthonormal basis of the
/// view with `w` looking backward.
pub open spec fn camera_spec(lookfrom: Vec3, lookat: Vec3, vup: Vec3, vfov: i64, aspect: i64)
    -> Camera {
    let theta = fdiv(fmul(vfov, FX_PI), 11796480);
    let half_height = tan_spec(fdiv(theta, FX_TWO));
    let half_width = fmul(aspect, half_height);
    let w = unit_spec(vsub(lookfrom, lookat));
    let u = unit_spec(cross_spec(vup, w));
    let v = cross_spec(w, u);
    Camera {
        lower_left_corner: vsub(
            vsub(vsub(lookfrom, vscale(half_width, u)), vscale(half_height, v)),
            w,
        ),
        horizontal: vscale(fmul(FX_TWO, half_width), u),
        vertical: vscale(fmul(FX_TWO, half_height), v),
        origin: lookfrom,
    }
}

/// The ray through image-plane coordinates `(s, t)`, with `(0, 0)` the
/// lower-left corner and `(1, 1)` the upper-right.
pub open spec fn get_ray_spec(c: Camera, s: i64, t: i64) -> Ray {
    Ray {
        origin: c.origin,
        direction: vsub(
            vadd(vadd(c.lower_left_corner, vscale(s, c.horizontal)), vscale(t, c.vertical)),
            c.origin,
        ),
    }
}

impl Camera {
    /// Derive a camera from eye position `lookfrom`, target `lookat`, up
    /// vector `vup`, vertical field of view `vfov` in degrees, and aspect
    /// ratio `aspect` (all scalars fixed-point).
    pub fn new(lookfrom: Vec3, lookat: Vec3, vup: Vec3, vfov: i64, aspect: i64) -> (c: Camera)
        ensures
            c == camera_spec(lookfrom, lookat, vup, vfov, aspect),
    {
        let theta = fx_div(fx_mul(vfov, FX_PI), 11796480);
        let half_height = fx_tan(fx_div(theta, FX_TWO));
        let half_width = fx_mul(aspect, half_height);
        let w = lookfrom.sub(lookat).into_unit();
        let u = vup.cross(&w).into_unit();
        let v = w.cross(&u);
        Camera {
            lower_left_corner: lookfrom.sub(u.scale(half_width)).sub(v.scale(half_height)).sub(w),
            horizontal: u.scale(fx_mul(FX_TWO, half_width)),
            vertical: v.scale(fx_mul(FX_TWO, half_height)),
            origin: lookfrom,
        }
    }

    /// The ray from the eye through image-plane coordinates `(s, t)` in
    /// `[0, 1] x [0, 1]`.
    pub fn get_ray(&self, s: i64, t: i64) -> (r: Ray)
        ensures
            r == get_ray_spec(*self, s, t),
    {
        Ray::new(
            self.origin,
            self.lower_left_corner.add(self.horizontal.scale(s)).add(
                self.vertical.scale(t),
            ).sub(self.origin),
        )
    }
}

} // verus!
