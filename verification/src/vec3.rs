//! Three-component fixed-point vectors, used interchangeably as points,
//! directions and RGB colors (`r`, `g`, `b` alias `x`, `y`, `z`).

use vstd::prelude::*;
use crate::fixed::{fadd, fsub, fneg, fmul, fdiv, fsqrt, mag, lemma_fmul_units, lemma_fsqrt_units};
use crate::fixed::{fx_add, fx_sub, fx_neg, fx_mul, fx_div, fx_sqrt, FX_ONE, FX_TWO};
use crate::rand::{Rng, drand, lcg, lcg_out};

verus! {

/// Number of candidates that `random_in_unit_sphere` will draw before
/// falling back to the center of the ball.
pub const BALL_TRIES: u32 = 64;

/// A vector of three fixed-point scalars.
#[derive(Clone, Copy, Debug, PartialEq, Eq, Structural)]
pub struct Vec3(pub i64, pub i64, pub i64);

/// Component-wise saturating sum.
pub open spec fn vadd(a: Vec3, b: Vec3) -> Vec3 {
    Vec3(fadd(a.0, b.0), fadd(a.1, b.1), fadd(a.2, b.2))
}

/// Component-wise saturating difference.
pub open spec fn vsub(a: Vec3, b: Vec3) -> Vec3 {
    Vec3(fsub(a.0, b.0), fsub(a.1, b.1), fsub(a.2, b.2))
}

/// Component-wise saturating negation.
pub open spec fn vneg(a: Vec3) -> Vec3 {
    Vec3(fneg(a.0), fneg(a.1), fneg(a.2))
}

/// Component-wise fixed-point product.
pub open spec fn vmul(a: Vec3, b: Vec3) -> Vec3 {
    Vec3(fmul(a.0, b.0), fmul(a.1, b.1), fmul(a.2, b.2))
}

/// Component-wise fixed-point quotient.
pub open spec fn vdiv(a: Vec3, b: Vec3) -> Vec3 {
    Vec3(fdiv(a.0, b.0), fdiv(a.1, b.1), fdiv(a.2, b.2))
}

/// Every component multiplied by the scalar `t`.
pub open spec fn vscale(t: i64, a: Vec3) -> Vec3 {
    Vec3(fmul(t, a.0), fmul(t, a.1), fmul(t, a.2))
}

/// Every component divided by the scalar `t`.
pub open spec fn vscale_div(a: Vec3, t: i64) -> Vec3 {
    Vec3(fdiv(a.0, t), fdiv(a.1, t), fdiv(a.2, t))
}

/// Fixed-point dot product: the three component products, summed left to
/// right with saturation.
pub open spec fn dot_spec(a: Vec3, b: Vec3) -> i64 {
    fadd(fadd(fmul(a.0, b.0), fmul(a.1, b.1)), fmul(a.2, b.2))
}

/// Squared Euclidean length.
pub open spec fn sq_len_spec(a: Vec3) -> i64 {
    dot_spec(a, a)
}

/// Euclidean length: the fixed-point square root of the squared length.
pub open spec fn len_spec(a: Vec3) -> i64 {
    fsqrt(sq_len_spec(a))
}

/// Fixed-point cross product.
pub open spec fn cross_spec(a: Vec3, b: Vec3) -> Vec3 {
    Vec3(
        fsub(fmul(a.1, b.2), fmul(a.2, b.1)),
        fneg(fsub(fmul(a.0, b.2), fmul(a.2, b.0))),
        fsub(fmul(a.0, b.1), fmul(a.1, b.0)),
    )
}

/// The vector divided by its own length (each component zero when the
/// length is zero).
pub open spec fn unit_spec(a: Vec3) -> Vec3 {
    vscale_div(a, len_spec(a))
}

/// Mirror reflection of `v` about the normal `n`: `v - 2 * dot(v, n) * n`.
pub open spec fn reflect_spec(v: Vec3, n: Vec3) -> Vec3 {
    vsub(v, vscale(fmul(FX_TWO, dot_spec(v, n)), n))
}

/// The point and final stream state that rejection sampling yields from
/// stream state `s` with `tries` draws left: each candidate consumes three
/// uniform values; the first candidate inside the unit ball is the result,
/// the center of the ball if every draw misses.
pub open spec fn rius_spec(s: int, tries: nat) -> (Vec3, int)
    decreases tries,
{
    if tries == 0 {
        (Vec3(0, 0, 0), s)
    } else {
        let s1 = lcg(s);
        let s2 = lcg(s1);
        let s3 = lcg(s2);
        let p = vsub(
            vscale(FX_TWO, Vec3(lcg_out(s1), lcg_out(s2), lcg_out(s3))),
            Vec3(FX_ONE, FX_ONE, FX_ONE),
        );
        if sq_len_spec(p) < FX_ONE {
            (p, s3)
        } else {
            rius_spec(s3, (tries - 1) as nat)
        }
    }
}

/// Scaling a nonzero vector to unit length yields length exactly one.
/// Stated here for vectors along a coordinate axis with a whole-unit
/// magnitude, where every fixed-point step is exact; for general vectors
/// normalization is exact only up to rounding.
pub proof fn lemma_unit_length(k: int)
    ensures
        0 < k <= 0x400000 ==> unit_spec(Vec3((k * 65536) as i64, 0, 0)) == Vec3(FX_ONE, 0, 0),
        len_spec(Vec3(FX_ONE, 0, 0)) == FX_ONE,
{
    lemma_fmul_units(1, 1);
    lemma_fsqrt_units(1);
    assert(fmul(FX_ONE, FX_ONE) == FX_ONE);
    assert(sq_len_spec(Vec3(FX_ONE, 0, 0)) == FX_ONE);
    assert(len_spec(Vec3(FX_ONE, 0, 0)) == FX_ONE);
    if 0 < k <= 0x400000 {
        let a = (k * 65536) as i64;
        let v = Vec3(a, 0, 0);
        lemma_fmul_units(k, k);
        assert(sq_len_spec(v) == ((k * k) * 65536) as i64);
        lemma_fsqrt_units(k);
        assert(len_spec(v) == a);
        vstd::arithmetic::div_mod::lemma_div_multiples_vanish(65536, a as int);
        assert((a as int) * 65536 == (a as int) * 65536);
        assert(mag((a as int) * 65536) == (a as int) * 65536);
        assert(fdiv(a, a) == FX_ONE);
        assert(fdiv(0, a) == 0);
        assert(unit_spec(v) == Vec3(FX_ONE, 0, 0));
    }
}

impl Vec3 {
    /// First component.
    pub fn x(&self) -> (r: i64)
        ensures
            r == self.0,
    {
        self.0
    }

    /// Second component.
    pub fn y(&self) -> (r: i64)
        ensures
            r == self.1,
    {
        self.1
    }

    /// Third component.
    pub fn z(&self) -> (r: i64)
        ensures
            r == self.2,
    {
        self.2
    }

    /// Red channel (alias of the first component).
    pub fn r(&self) -> (r: i64)
        ensures
            r == self.0,
    {
        self.0
    }

    /// Green channel (alias of the second component).
    pub fn g(&self) -> (r: i64)
        ensures
            r == self.1,
    {
        self.1
    }

    /// Blue channel (alias of the third component).
    pub fn b(&self) -> (r: i64)
        ensures
            r == self.2,
    {
        self.2
    }

    /// Component-wise saturating sum.
    pub fn add(self, other: Vec3) -> (r: Vec3)
        ensures
            r == vadd(self, other),
    {
        Vec3(fx_add(self.0, other.0), fx_add(self.1, other.1), fx_add(self.2, other.2))
    }

    /// Component-wise saturating difference.
    pub fn sub(self, other: Vec3) -> (r: Vec3)
        ensures
            r == vsub(self, other),
    {
        Vec3(fx_sub(self.0, other.0), fx_sub(self.1, other.1), fx_sub(self.2, other.2))
    }

    /// Component-wise saturating negation.
    pub fn neg(self) -> (r: Vec3)
        ensures
            r == vneg(self),
    {
        Vec3(fx_neg(self.0), fx_neg(self.1), fx_neg(self.2))
    }

    /// Component-wise fixed-point product.
    pub fn mul(self, other: Vec3) -> (r: Vec3)
        ensures
            r == vmul(self, other),
    {
        Vec3(fx_mul(self.0, other.0), fx_mul(self.1, other.1), fx_mul(self.2, other.2))
    }

    /// Component-wise fixed-point quotient.
    pub fn div(self, other: Vec3) -> (r: Vec3)
        ensures
            r == vdiv(self, other),
    {
        Vec3(fx_div(self.0, other.0), fx_div(self.1, other.1), fx_div(self.2, other.2))
    }

    /// Every component multiplied by the scalar `t`.
    pub fn scale(self, t: i64) -> (r: Vec3)
        ensures
            r == vscale(t, self),
    {
        Vec3(fx_mul(t, self.0), fx_mul(t, self.1), fx_mul(t, self.2))
    }

    /// Every component divided by the scalar `t`.
    pub fn scale_div(self, t: i64) -> (r: Vec3)
        ensures
            r == vscale_div(self, t),
    {
        Vec3(fx_div(self.0, t), fx_div(self.1, t), fx_div(self.2, t))
    }

    /// Euclidean length.
    pub fn length(&self) -> (r: i64)
        ensures
            r == len_spec(*self),
    {
        fx_sqrt(self.squared_length())
    }

    /// Squared Euclidean length, avoiding the square root where only a
    /// comparison is needed.
    pub fn squared_length(&self) -> (r: i64)
        ensures
            r == sq_len_spec(*self),
    {
        fx_add(fx_add(fx_mul(self.0, self.0), fx_mul(self.1, self.1)), fx_mul(self.2, self.2))
    }

    /// Normalize in place.
    pub fn make_unit_vector(&mut self)
        ensures
            *final(self) == unit_spec(*old(self)),
    {
        *self = self.into_unit();
    }

    /// Fixed-point dot product.
    pub fn dot(&self, v2: &Vec3) -> (r: i64)
        ensures
            r == dot_spec(*self, *v2),
    {
        fx_add(fx_add(fx_mul(self.0, v2.0), fx_mul(self.1, v2.1)), fx_mul(self.2, v2.2))
    }

    /// Fixed-point cross product.
    pub fn cross(&self, v2: &Vec3) -> (r: Vec3)
        ensures
            r == cross_spec(*self, *v2),
    {
        Vec3(
            fx_sub(fx_mul(self.1, v2.2), fx_mul(self.2, v2.1)),
            fx_neg(fx_sub(fx_mul(self.0, v2.2), fx_mul(self.2, v2.0))),
            fx_sub(fx_mul(self.0, v2.1), fx_mul(self.1, v2.0)),
        )
    }

    /// The vector scaled to unit length (all components zero when the length
    /// is zero, rather than a panic).
    pub fn into_unit(self) -> (r: Vec3)
        ensures
            r == unit_spec(self),
    {
        let l = self.length();
        self.scale_div(l)
    }

    /// Mirror reflection about the normal `n`.
    pub fn reflect(self, n: &Vec3) -> (r: Vec3)
        ensures
            r == reflect_spec(self, *n),
    {
        let d = self.dot(n);
        self.sub(n.scale(fx_mul(FX_TWO, d)))
    }

    /// A point drawn uniformly from the open unit ball by rejection
    /// sampling: candidates `2 * (u, v, w) - (1, 1, 1)` with `u`, `v`, `w`
    /// uniform in `[0, 1)` are drawn until one has squared length below one.
    /// The draw count is capped; if every candidate misses (vanishingly
    /// unlikely), the center of the ball is returned.
    pub fn random_in_unit_sphere(rng: &mut Rng) -> (r: Vec3)
        ensures
            sq_len_spec(r) < FX_ONE,
            r == rius_spec(old(rng)@, BALL_TRIES as nat).0,
            final(rng)@ == rius_spec(old(rng)@, BALL_TRIES as nat).1,
    {
        let mut tries: u32 = BALL_TRIES;
        while tries > 0
            invariant
                rius_spec(old(rng)@, BALL_TRIES as nat) == rius_spec(rng@, tries as nat),
            decreases tries,
        {
            let u = drand(rng);
            let v = drand(rng);
            let w = drand(rng);
            let p = Vec3(u, v, w).scale(FX_TWO).sub(Vec3(FX_ONE, FX_ONE, FX_ONE));
            if p.squared_length() < FX_ONE {
                return p;
            }
            tries = tries - 1;
        }
        Vec3(0, 0, 0)
    }
}

} // verus!
