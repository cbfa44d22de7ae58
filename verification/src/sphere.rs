//! The sphere primitive and its ray-intersection test.

use vstd::prelude::*;
use crate::material::{HitRecord, Material};
use crate::ray::{Ray, ray_at};
use crate::vec3::{Vec3, vadd, vsub, vscale, vscale_div, dot_spec, len_spec, sq_len_spec};
use crate::fixed::{fadd, fsub, fneg, fmul, fdiv, fsqrt, mag, lemma_fdiv_one, lemma_fmul_units, lemma_fsqrt_units};
use crate::fixed::{fx_add, fx_sub, fx_neg, fx_mul, fx_div, fx_sqrt};

verus! {

/// A sphere with a surface material. A nonpositive radius gives degenerate
/// (but total and panic-free) arithmetic, as dividing by a zero length does.
#[derive(Clone, Copy, Debug, PartialEq, Eq, Structural)]
pub struct Sphere {
    pub center: Vec3,
    pub radius: i64,
    pub material: Material,
}

/// The hit record that a sphere reports at ray parameter `t`: the point on
/// the ray, the outward normal `(p - center) / radius`, and the sphere's
/// material.
pub open spec fn sphere_record_spec(s: Sphere, r: Ray, t: i64) -> HitRecord {
    let p = ray_at(r, t);
    HitRecord { t, p, normal: vscale_div(vsub(p, s.center), s.radius), material: s.material }
}

/// The quadratic intersection test. With `oc = origin - center`, the roots
/// of `dot(d,d) t^2 + 2 dot(oc,d) t + dot(oc,oc) - radius^2 = 0` are the
/// ray parameters on the sphere; the discriminant must be strictly
/// positive (exact tangency is a miss), and the smaller root is preferred.
/// A root counts only strictly inside `(t_min, t_max)`.
pub open spec fn sphere_hit_spec(s: Sphere, r: Ray, t_min: i64, t_max: i64) -> Option<HitRecord> {
    let oc = vsub(r.origin, s.center);
    let a = dot_spec(r.direction, r.direction);
    let b = dot_spec(oc, r.direction);
    let c = fsub(dot_spec(oc, oc), fmul(s.radius, s.radius));
    let disc = fsub(fmul(b, b), fmul(a, c));
    if disc > 0 {
        let sq = fsqrt(disc);
        let t1 = fdiv(fsub(fneg(b), sq), a);
        if t_min < t1 && t1 < t_max {
            Some(sphere_record_spec(s, r, t1))
        } else {
            let t2 = fdiv(fadd(fneg(b), sq), a);
            if t_min < t2 && t2 < t_max {
                Some(sphere_record_spec(s, r, t2))
            } else {
                None
            }
        }
    } else {
        None
    }
}

/// A head-on ray fired at a sphere's center from outside: with radius
/// `k` and distance `m` in whole units and `m > k`, the discriminant is
/// strictly positive (the ray meets the sphere in two real roots), the
/// near hit is exactly `t = m - k` units, and the hit point lies exactly
/// at distance `k` units from the center. Every fixed-point step is exact
/// here; for inputs that are not whole units the same facts hold only up
/// to rounding.
pub proof fn lemma_head_on_hit(c: Vec3, k: int, m: int, mat: Material, t_min: i64, t_max: i64)
    requires
        0 < k < m <= 0x100000,
        mag(c.2 as int) <= 0x100000000000000,
        0 <= t_min < (m - k) * 65536,
        t_max > (m - k) * 65536,
    ensures
        ({
            let s = Sphere { center: c, radius: (k * 65536) as i64, material: mat };
            let r = Ray {
                origin: Vec3(c.0, c.1, fadd(c.2, (m * 65536) as i64)),
                direction: Vec3(0, 0, -65536i64),
            };
            &&& sphere_hit_spec(s, r, t_min, t_max) is Some
            &&& (sphere_hit_spec(s, r, t_min, t_max) matches Some(h) ==> h.t == ((m - k)
                * 65536) as i64 && len_spec(vsub(ray_at(r, h.t), c)) == (k * 65536) as i64)
        }),
{
    let rfx = (k * 65536) as i64;
    let dfx = (m * 65536) as i64;
    let s = Sphere { center: c, radius: rfx, material: mat };
    let r = Ray { origin: Vec3(c.0, c.1, fadd(c.2, dfx)), direction: Vec3(0, 0, -65536i64) };
    let oc = vsub(r.origin, s.center);
    assert(oc == Vec3(0, 0, dfx));
    lemma_fmul_units(-1, -1);
    let a = dot_spec(r.direction, r.direction);
    assert(a == 65536);
    lemma_fmul_units(m, -1);
    let b = dot_spec(oc, r.direction);
    assert(b as int == (-m) * 65536);
    lemma_fmul_units(m, m);
    lemma_fmul_units(k, k);
    assert(0 < m * m <= 0x10000000000 && 0 < k * k <= 0x10000000000 && k * k < m * m) by (
    nonlinear_arith)
        requires
            0 < k < m <= 0x100000,
    ;
    let cc = fsub(dot_spec(oc, oc), fmul(s.radius, s.radius));
    assert(dot_spec(oc, oc) == ((m * m) * 65536) as i64);
    assert(cc as int == (m * m) * 65536 - (k * k) * 65536);
    lemma_fmul_units(-m, -m);
    assert(fmul(b, b) == ((m * m) * 65536) as i64) by {
        assert((-m) * (-m) == m * m) by (nonlinear_arith);
    }
    lemma_fdiv_one(cc);
    let disc = fsub(fmul(b, b), fmul(a, cc));
    assert(disc as int == (k * k) * 65536);
    assert(0 < k * k <= 0x10000000000) by (nonlinear_arith)
        requires
            0 < k <= 0x100000,
    ;
    assert(disc > 0);
    lemma_fsqrt_units(k);
    assert(fsqrt(disc) == rfx);
    let t1 = fdiv(fsub(fneg(b), fsqrt(disc)), a);
    assert(fneg(b) == dfx);
    assert(fsub(fneg(b), fsqrt(disc)) as int == (m - k) * 65536) by {
        assert(m * 65536 - k * 65536 == (m - k) * 65536);
    }
    lemma_fdiv_one(((m - k) * 65536) as i64);
    assert(t1 as int == (m - k) * 65536);
    assert(t_min < t1 && t1 < t_max);
    assert(sphere_hit_spec(s, r, t_min, t_max) == Some(sphere_record_spec(s, r, t1)));
    // the hit point is origin + t1 * direction, exactly r units from the center
    lemma_fmul_units(m - k, -1);
    let step = vscale(t1, r.direction);
    assert(step == Vec3(0, 0, ((-(m - k)) * 65536) as i64)) by {
        assert(fmul(t1, 0) == 0);
    }
    let p = vadd(r.origin, step);
    assert(p.2 as int == c.2 + k * 65536) by {
        assert(c.2 + m * 65536 + (-(m - k)) * 65536 == c.2 + k * 65536);
    }
    assert(vsub(p, c) == Vec3(0, 0, rfx));
    assert(len_spec(Vec3(0, 0, rfx)) == rfx) by {
        assert(sq_len_spec(Vec3(0, 0, rfx)) == ((k * k) * 65536) as i64);
    }
}

impl Sphere {
    /// Report the nearest intersection of `r` with this sphere at a
    /// parameter strictly inside `(t_min, t_max)`, or `None`.
    pub fn hit(&self, r: &Ray, t_min: i64, t_max: i64) -> (res: Option<HitRecord>)
        ensures
            res == sphere_hit_spec(*self, *r, t_min, t_max),
    {
        let oc = r.origin.sub(self.center);
        let a = r.direction.dot(&r.direction);
        let b = oc.dot(&r.direction);
        let c = fx_sub(oc.dot(&oc), fx_mul(self.radius, self.radius));
        let disc = fx_sub(fx_mul(b, b), fx_mul(a, c));
        if disc > 0 {
            let sq = fx_sqrt(disc);
            let t1 = fx_div(fx_sub(fx_neg(b), sq), a);
            if t_min < t1 && t1 < t_max {
                let p = r.point_at_parameter(t1);
                return Some(
                    HitRecord {
                        t: t1,
                        p,
                        normal: p.sub(self.center).scale_div(self.radius),
                        material: self.material,
                    },
                );
            }
            let t2 = fx_div(fx_add(fx_neg(b), sq), a);
            if t_min < t2 && t2 < t_max {
                let p = r.point_at_parameter(t2);
                return Some(
                    HitRecord {
                        t: t2,
                        p,
                        normal: p.sub(self.center).scale_div(self.radius),
                        material: self.material,
                    },
                );
            }
            return None;
        }
        None
    }
}

} // verus!
