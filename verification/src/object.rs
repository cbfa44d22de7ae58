//! Scene objects: the primitive variants and the world that resolves the
//! nearest hit among all of them.

use vstd::prelude::*;
use crate::material::HitRecord;
use crate::ray::Ray;
use crate::sphere::{Sphere, sphere_hit_spec};

verus! {

/// A scene primitive.
#[derive(Clone, Copy, Debug, PartialEq, Eq, Structural)]
pub enum Hitable {
    Sphere(Sphere),
}

impl Hitable {
    /// The hit that this primitive reports.
    pub open spec fn hit_spec(self, r: Ray, t_min: i64, t_max: i64) -> Option<HitRecord> {
        match self {
            Hitable::Sphere(s) => sphere_hit_spec(s, r, t_min, t_max),
        }
    }

    /// Report the nearest intersection of `r` with this primitive at a
    /// parameter strictly inside `(t_min, t_max)`, or `None`.
    pub fn hit(&self, r: &Ray, t_min: i64, t_max: i64) -> (res: Option<HitRecord>)
        ensures
            res == self.hit_spec(*r, t_min, t_max),
    {
        match self {
            Hitable::Sphere(s) => s.hit(r, t_min, t_max),
        }
    }
}

/// Of a previous best hit and a candidate, the one nearer along the ray;
/// on an exact tie the earlier (first seen) wins.
pub open spec fn closer_hit(prev: Option<HitRecord>, cand: Option<HitRecord>) -> Option<
    HitRecord,
> {
    match cand {
        Option::None => prev,
        Option::Some(c) => match prev {
            Option::None => Some(c),
            Option::Some(b) => if c.t < b.t {
                Some(c)
            } else {
                Some(b)
            },
        },
    }
}

/// The nearest hit among the primitives of `objs`, scanned left to right.
pub open spec fn world_hit_spec(objs: Seq<Hitable>, r: Ray, t_min: i64, t_max: i64) -> Option<
    HitRecord,
>
    decreases objs.len(),
{
    if objs.len() == 0 {
        None
    } else {
        closer_hit(
            world_hit_spec(objs.drop_last(), r, t_min, t_max),
            objs.last().hit_spec(r, t_min, t_max),
        )
    }
}

/// An ordered collection of primitives, read-only while rendering.
/// Iteration order does not affect which hit is nearest, except that on an
/// exact parameter tie the earlier primitive wins.
pub struct World {
    objects: Vec<Hitable>,
}

impl View for World {
    type V = Seq<Hitable>;

    /// The primitives, in order.
    closed spec fn view(&self) -> Seq<Hitable> {
        self.objects@
    }
}

impl World {
    /// A world holding `objects`.
    pub fn new(objects: Vec<Hitable>) -> (w: World)
        ensures
            w@ == objects@,
    {
        World { objects }
    }

    /// How many primitives the world holds.
    pub fn len(&self) -> (n: usize)
        ensures
            n == self@.len(),
    {
        self.objects.len()
    }

    /// The hit with the smallest ray parameter among all primitives, each
    /// tested strictly inside `(t_min, t_max)`; `None` when nothing is hit.
    pub fn hit(&self, r: &Ray, t_min: i64, t_max: i64) -> (res: Option<HitRecord>)
        ensures
            res == world_hit_spec(self@, *r, t_min, t_max),
    {
        let mut best: Option<HitRecord> = None;
        let mut i: usize = 0;
        while i < self.objects.len()
            invariant
                i <= self.objects.len(),
                best == world_hit_spec(self@.take(i as int), *r, t_min, t_max),
            decreases self.objects.len() - i,
        {
            let cand = self.objects[i].hit(r, t_min, t_max);
            proof {
                assert(self@.take(i + 1).drop_last() =~= self@.take(i as int));
                assert(self@.take(i + 1).last() == self@[i as int]);
            }
            match cand {
                Option::Some(c) => match best {
                    Option::None => { best = Some(c) },
                    Option::Some(b) => {
                        if c.t < b.t {
                            best = Some(c);
                        }
                    },
                },
                Option::None => {},
            }
            i = i + 1;
        }
        proof {
            assert(self@.take(self.objects.len() as int) =~= self@);
        }
        best
    }
}

/// The world's answer really is the nearest-hit reduction: when it
/// reports a hit, some primitive reports exactly that hit and no
/// primitive reports one with a smaller ray parameter; when it reports
/// none, no primitive hits at all.
#[verifier::rlimit(100)]
#[verifier::spinoff_prover]
pub proof fn lemma_world_hit_is_nearest(objs: Seq<Hitable>, r: Ray, t_min: i64, t_max: i64)
    ensures
        world_hit_spec(objs, r, t_min, t_max) matches Some(h) ==> exists|i: int|
            0 <= i < objs.len() && #[trigger] objs[i].hit_spec(r, t_min, t_max) == Some(h),
        world_hit_spec(objs, r, t_min, t_max) matches Some(h) ==> forall|i: int|
            0 <= i < objs.len() ==> (#[trigger] objs[i].hit_spec(r, t_min, t_max) matches Some(c)
                ==> h.t <= c.t),
        world_hit_spec(objs, r, t_min, t_max) is None ==> forall|i: int|
            0 <= i < objs.len() ==> #[trigger] objs[i].hit_spec(r, t_min, t_max) is None,
    decreases objs.len(),
{
    if objs.len() > 0 {
        let pre = objs.drop_last();
        lemma_world_hit_is_nearest(pre, r, t_min, t_max);
        assert(forall|i: int| 0 <= i < pre.len() ==> pre[i] == objs[i]);
        assert(objs.last() == objs[objs.len() - 1]);
        let below = world_hit_spec(pre, r, t_min, t_max);
        let last = objs.last().hit_spec(r, t_min, t_max);
        assert(world_hit_spec(objs, r, t_min, t_max) == closer_hit(below, last));
        match closer_hit(below, last) {
            Option::Some(h) => {
                if last == Some::<HitRecord>(h) {
                    assert(objs[objs.len() - 1].hit_spec(r, t_min, t_max) == Some(h));
                } else {
                    assert(below == Some::<HitRecord>(h));
                }
            },
            Option::None => {},
        }
    }
}

} // verus!
