//! Surface materials: given an incoming ray and a hit, either a scattered
//! ray with an attenuation color, or absorption.

use vstd::prelude::*;
use crate::ray::Ray;
use crate::rand::Rng;
use crate::vec3::{Vec3, vadd, vsub, vscale, dot_spec, unit_spec, reflect_spec, rius_spec};
use crate::vec3::BALL_TRIES;

verus! {

/// The result of a successful intersection: ray parameter, hit point, unit
/// outward normal, and the material of the primitive that was hit (copied
/// by value, so the record borrows nothing from the scene).
#[derive(Clone, Copy, Debug, PartialEq, Eq, Structural)]
pub struct HitRecord {
    pub t: i64,
    pub p: Vec3,
    pub normal: Vec3,
    pub material: Material,
}

/// A surface material.
#[derive(Clone, Copy, Debug, PartialEq, Eq, Structural)]
pub enum Material {
    /// Diffuse: scatters toward a random point around the normal tip and
    /// never absorbs. `albedo` is the reflectance, each channel in `[0, 1]`.
    Lambertian { albedo: Vec3 },
    /// Specular with roughness `fuzz` in `[0, 1]` (`0` is a mirror):
    /// absorbs when the perturbed reflection would leave into the surface.
    Metal { albedo: Vec3, fuzz: i64 },
}

/// What `scatter` returns, and the stream state it leaves, when applied to
/// material `m` with the random stream at state `s`.
pub open spec fn scatter_spec(m: Material, r_in: Ray, rec: HitRecord, s: int) -> (Option<
    (Ray, Vec3),
>, int) {
    match m {
        Material::Lambertian { albedo } => {
            let (rv, s1) = rius_spec(s, BALL_TRIES as nat);
            let target = vadd(vadd(rec.p, rec.normal), rv);
            (Some((Ray { origin: rec.p, direction: vsub(target, rec.p) }, albedo)), s1)
        },
        Material::Metal { albedo, fuzz } => {
            let reflected = reflect_spec(unit_spec(r_in.direction), rec.normal);
            let (rv, s1) = rius_spec(s, BALL_TRIES as nat);
            let dir = vadd(reflected, vscale(fuzz, rv));
            if dot_spec(dir, rec.normal) > 0 {
                (Some((Ray { origin: rec.p, direction: dir }, albedo)), s1)
            } else {
                (None, s1)
            }
        },
    }
}

impl Material {
    /// Scatter the incoming ray at `rec`, drawing randomness from `rng`:
    /// a scattered ray and an attenuation color, or `None` for absorption.
    /// The result is exactly what `scatter_spec` states for the incoming
    /// stream state.
    pub fn scatter(&self, r_in: &Ray, rec: &HitRecord, rng: &mut Rng) -> (res: Option<(Ray, Vec3)>)
        ensures
            res == scatter_spec(*self, *r_in, *rec, old(rng)@).0,
            final(rng)@ == scatter_spec(*self, *r_in, *rec, old(rng)@).1,
    {
        match self {
            Material::Lambertian { albedo } => {
                let rv = Vec3::random_in_unit_sphere(rng);
                let target = rec.p.add(rec.normal).add(rv);
                Some((Ray::new(rec.p, target.sub(rec.p)), *albedo))
            },
            Material::Metal { albedo, fuzz } => {
                let reflected = r_in.direction.into_unit().reflect(&rec.normal);
                let rv = Vec3::random_in_unit_sphere(rng);
                let scattered = Ray::new(rec.p, reflected.add(rv.scale(*fuzz)));
                if scattered.direction.dot(&rec.normal) > 0 {
                    Some((scattered, *albedo))
                } else {
                    None
                }
            },
        }
    }
}

/// A Lambertian material scatters every ray: absorption is never reported,
/// and the attenuation is its albedo, whatever the stream state.
pub proof fn lemma_lambertian_always_scatters(albedo: Vec3, r_in: Ray, rec: HitRecord, s: int)
    ensures
        scatter_spec(Material::Lambertian { albedo }, r_in, rec, s).0 is Some,
        (scatter_spec(Material::Lambertian { albedo }, r_in, rec, s).0 matches Some(pair)
            && pair.1 == albedo && pair.0.origin == rec.p),
{
}

/// A metal with zero fuzz is an exact mirror: whenever it scatters, the
/// scattered direction is the perfect reflection of the unit incoming
/// direction about the normal, and it scatters exactly when that
/// reflection leaves the surface on the normal's side.
pub proof fn lemma_metal_mirror(albedo: Vec3, r_in: Ray, rec: HitRecord, s: int)
    ensures
        ({
            let refl = reflect_spec(unit_spec(r_in.direction), rec.normal);
            let out = scatter_spec(Material::Metal { albedo, fuzz: 0 }, r_in, rec, s).0;
            &&& (out is Some <==> dot_spec(refl, rec.normal) > 0)
            &&& (out matches Some(pair) ==> pair.0 == (Ray { origin: rec.p, direction: refl })
                && pair.1 == albedo)
        }),
{
    let refl = reflect_spec(unit_spec(r_in.direction), rec.normal);
    let (rv, s1) = rius_spec(s, BALL_TRIES as nat);
    assert(vscale(0, rv) == Vec3(0, 0, 0));
    assert(vadd(refl, Vec3(0, 0, 0)) == refl);
}

} // verus!
