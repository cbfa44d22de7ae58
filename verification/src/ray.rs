//! Rays: an origin and a direction (not necessarily normalized).

use vstd::prelude::*;
use crate::vec3::{Vec3, vadd, vscale};

verus! {

/// A half-line through `origin` along `direction`.
#[derive(Clone, Copy, Debug, PartialEq, Eq, Structural)]
pub struct Ray {
    pub origin: Vec3,
    pub direction: Vec3,
}

/// The point `origin + t * direction`.
pub open spec fn ray_at(r: Ray, t: i64) -> Vec3 {
    vadd(r.origin, vscale(t, r.direction))
}

impl Ray {
    /// A ray from `origin` along `direction`.
    pub fn new(origin: Vec3, direction: Vec3) -> (r: Ray)
        ensures
            r == (Ray { origin, direction }),
    {
        Ray { origin, direction }
    }

    /// Evaluate the ray at parameter `t`.
    pub fn point_at_parameter(&self, t: i64) -> (p: Vec3)
        ensures
            p == ray_at(*self, t),
    {
        self.origin.add(self.direction.scale(t))
    }
}

} // verus!
