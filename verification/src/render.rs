//! The recursive radiance estimator and the sampling loop that fills an
//! RGB byte image from it.

use vstd::prelude::*;
use crate::camera::{Camera, get_ray_spec};
use crate::fixed::{fadd, fsub, fmul, fdiv, fsqrt, sqrt_floor, lemma_sqrt_floor_bounds};
use crate::fixed::{fx_add, fx_sub, fx_mul, fx_div, fx_sqrt, FX_ONE};
use crate::material::scatter_spec;
use crate::object::{Hitable, World, world_hit_spec};
use crate::rand::{Rng, drand, lcg, lcg_out, seed_state};
use crate::ray::Ray;
use crate::vec3::{Vec3, vadd, vmul, vscale, vscale_div, unit_spec};

verus! {

/// The lower end of the ray-parameter interval used against the scene: a
/// small positive value (about 0.001), so a scattered ray cannot re-hit
/// the surface it left at its own origin.
pub const HIT_T_MIN: i64 = 66;

/// The recursion depth at which the estimator gives up and reports black.
pub const DEPTH_CAP: i64 = 50;

/// The background: a vertical gradient from white at the horizon to sky
/// blue upward, steered by the y component of the unit ray direction.
pub open spec fn sky_spec(r: Ray) -> Vec3 {
    let ud = unit_spec(r.direction);
    let t = fmul(32768, fadd(ud.1, FX_ONE));
    vadd(
        vscale(fsub(FX_ONE, t), Vec3(FX_ONE, FX_ONE, FX_ONE)),
        vscale(t, Vec3(32768, 45875, FX_ONE)),
    )
}

/// One Monte Carlo radiance sample along `r` against the primitives
/// `objs`, with the random stream at state `s`: the color estimate and the
/// stream state left behind. On a hit at or beyond the depth cap, or on
/// absorption, the sample is black; on a scatter it is the attenuation
/// times the recursive estimate; with no hit it is the sky gradient.
pub open spec fn color_spec(r: Ray, objs: Seq<Hitable>, s: int, depth: int) -> (Vec3, int)
    decreases DEPTH_CAP - depth,
{
    match world_hit_spec(objs, r, HIT_T_MIN, i64::MAX) {
        Option::Some(h) => {
            if depth >= DEPTH_CAP {
                (Vec3(0, 0, 0), s)
            } else {
                let (sc, s1) = scatter_spec(h.material, r, h, s);
                match sc {
                    Option::Some(pair) => {
                        let (rest, s2) = color_spec(pair.0, objs, s1, depth + 1);
                        (vmul(pair.1, rest), s2)
                    },
                    Option::None => (Vec3(0, 0, 0), s1),
                }
            }
        },
        Option::None => (sky_spec(r), s),
    }
}

/// Estimate the radiance along `r`: exactly the sample that `color_spec`
/// states for the incoming stream state.
pub fn color(r: &Ray, world: &World, rng: &mut Rng, depth: i64) -> (c: Vec3)
    ensures
        c == color_spec(*r, world@, old(rng)@, depth as int).0,
        final(rng)@ == color_spec(*r, world@, old(rng)@, depth as int).1,
    decreases DEPTH_CAP - depth,
{
    if let Option::Some(hr) = world.hit(r, HIT_T_MIN, i64::MAX) {
        if depth >= DEPTH_CAP {
            return Vec3(0, 0, 0);
        }
        if let Option::Some((scattered, attenuation)) = hr.material.scatter(r, &hr, rng) {
            attenuation.mul(color(&scattered, world, rng, depth + 1))
        } else {
            Vec3(0, 0, 0)
        }
    } else {
        let ud = r.direction.into_unit();
        let t = fx_mul(32768, fx_add(ud.y(), FX_ONE));
        Vec3(FX_ONE, FX_ONE, FX_ONE).scale(fx_sub(FX_ONE, t)).add(
            Vec3(32768, 45875, FX_ONE).scale(t),
        )
    }
}

/// Multiplying by one is exact.
proof fn lemma_fmul_one(a: i64)
    ensures
        fmul(a, FX_ONE) == a,
{
    let m = crate::fixed::mag(a as int);
    vstd::arithmetic::div_mod::lemma_div_multiples_vanish(m, 65536);
    assert(65536 * m == m * 65536);
    assert(crate::fixed::mag(a as int * 65536) == m * 65536);
}

/// In an empty scene nothing is ever hit, so the estimator returns the sky
/// gradient for every ray, stream state and depth — and that gradient is
/// never black: its blue channel is exactly one.
pub proof fn lemma_empty_scene_sky(r: Ray, s: int, depth: int)
    ensures
        world_hit_spec(Seq::<Hitable>::empty(), r, HIT_T_MIN, i64::MAX) is None,
        color_spec(r, Seq::<Hitable>::empty(), s, depth).0 == sky_spec(r),
        sky_spec(r).2 == FX_ONE,
        sky_spec(r) != Vec3(0, 0, 0),
{
    let ud = unit_spec(r.direction);
    let t = fmul(32768, fadd(ud.1, FX_ONE));
    lemma_fmul_one(fsub(FX_ONE, t));
    lemma_fmul_one(t);
    assert(sky_spec(r).2 == fadd(fsub(FX_ONE, t), t));
}

/// A hit at or beyond the depth cap is black: the recursion never looks
/// past the configured depth.
pub proof fn lemma_depth_cap_black(r: Ray, objs: Seq<Hitable>, s: int, depth: int)
    requires
        depth >= DEPTH_CAP,
        world_hit_spec(objs, r, HIT_T_MIN, i64::MAX) is Some,
    ensures
        color_spec(r, objs, s, depth).0 == Vec3(0, 0, 0),
{
}

/// A channel clamped into `[0, 1]`.
pub open spec fn clamp01_spec(c: i64) -> i64 {
    if c < 0 {
        0
    } else if c > FX_ONE {
        FX_ONE
    } else {
        c
    }
}

/// A linear channel quantized to a byte: clamp into `[0, 1]`, gamma-2
/// correct by taking the square root, then scale by 255.999 and truncate.
pub open spec fn byte_spec(c: i64) -> u8 {
    ((fsqrt(clamp01_spec(c)) * 255999) / 65536000) as u8
}

/// Quantize one linear channel to a byte.
pub fn to_byte(c: i64) -> (b: u8)
    ensures
        b == byte_spec(c),
{
    let cl: i64 = if c < 0 {
        0
    } else if c > FX_ONE {
        FX_ONE
    } else {
        c
    };
    let g: i64 = fx_sqrt(cl);
    proof {
        if cl > 0 {
            lemma_sqrt_floor_bounds(cl * 65536);
            assert(sqrt_floor(cl * 65536) <= 65536) by (nonlinear_arith)
                requires
                    0 <= sqrt_floor(cl * 65536),
                    sqrt_floor(cl * 65536) * sqrt_floor(cl * 65536) <= cl * 65536,
                    cl <= 65536,
            ;
        }
    }
    let v: u64 = ((g as u64) * 255999) / 65536000;
    v as u8
}

/// `n` whole units as a fixed-point scalar.
pub open spec fn int2fx(n: int) -> i64 {
    (n * 65536) as i64
}

/// The sum of `k` more radiance samples for the pixel at `(ifx, jfx)` (in
/// fixed-point pixel coordinates, with `nxfx`, `nyfx` the image size), on
/// top of `acc`: each sample jitters the pixel position with two uniform
/// draws, shoots the camera ray, and estimates radiance from depth zero.
pub open spec fn sample_sum_spec(
    cam: Camera,
    objs: Seq<Hitable>,
    ifx: i64,
    jfx: i64,
    nxfx: i64,
    nyfx: i64,
    s: int,
    k: nat,
    acc: Vec3,
) -> (Vec3, int)
    decreases k,
{
    if k == 0 {
        (acc, s)
    } else {
        let s1 = lcg(s);
        let s2 = lcg(s1);
        let u = fdiv(fadd(ifx, lcg_out(s1)), nxfx);
        let v = fdiv(fadd(jfx, lcg_out(s2)), nyfx);
        let (col, s3) = color_spec(get_ray_spec(cam, u, v), objs, s2, 0);
        sample_sum_spec(cam, objs, ifx, jfx, nxfx, nyfx, s3, (k - 1) as nat, vadd(acc, col))
    }
}

/// The color of one pixel: the average of `ns` jittered samples.
#[verifier::opaque]
pub open spec fn pixel_spec(
    cam: Camera,
    objs: Seq<Hitable>,
    ifx: i64,
    jfx: i64,
    nxfx: i64,
    nyfx: i64,
    ns: nat,
    nsfx: i64,
    s: int,
) -> (Vec3, int) {
    let (sum, s1) = sample_sum_spec(cam, objs, ifx, jfx, nxfx, nyfx, s, ns, Vec3(0, 0, 0));
    (vscale_div(sum, nsfx), s1)
}

/// Average `ns` jittered radiance samples for pixel `(i, j)` of an
/// `nx` by `ny` image: exactly the value that `pixel_spec` states.
pub fn pixel(
    cam: &Camera,
    world: &World,
    rng: &mut Rng,
    i: usize,
    j: usize,
    nx: usize,
    ny: usize,
    ns: usize,
) -> (c: Vec3)
    requires
        0 < nx <= 0x10000000,
        0 < ny <= 0x10000000,
        0 < ns <= 0x10000000,
        i < nx,
        j < ny,
    ensures
        c == pixel_spec(
            *cam,
            world@,
            int2fx(i as int),
            int2fx(j as int),
            int2fx(nx as int),
            int2fx(ny as int),
            ns as nat,
            int2fx(ns as int),
            old(rng)@,
        ).0,
        final(rng)@ == pixel_spec(
            *cam,
            world@,
            int2fx(i as int),
            int2fx(j as int),
            int2fx(nx as int),
            int2fx(ny as int),
            ns as nat,
            int2fx(ns as int),
            old(rng)@,
        ).1,
{
    proof {
        reveal(pixel_spec);
    }
    let ifx: i64 = (i as i64) * 65536;
    let jfx: i64 = (j as i64) * 65536;
    let nxfx: i64 = (nx as i64) * 65536;
    let nyfx: i64 = (ny as i64) * 65536;
    let mut col = Vec3(0, 0, 0);
    let mut k: usize = ns;
    while k > 0
        invariant
            sample_sum_spec(
                *cam,
                world@,
                ifx,
                jfx,
                nxfx,
                nyfx,
                old(rng)@,
                ns as nat,
                Vec3(0, 0, 0),
            ) == sample_sum_spec(*cam, world@, ifx, jfx, nxfx, nyfx, rng@, k as nat, col),
        decreases k,
    {
        let du = drand(rng);
        let dv = drand(rng);
        let u = fx_div(fx_add(ifx, du), nxfx);
        let v = fx_div(fx_add(jfx, dv), nyfx);
        let ray = cam.get_ray(u, v);
        let sample = color(&ray, world, rng, 0);
        col = col.add(sample);
        k = k - 1;
    }
    let ns_i64: i64 = ns as i64;
    col.scale_div(ns_i64 * 65536)
}

/// The bytes of the first `i` pixels of the row at height `jfx`, threading
/// the random stream: each pixel contributes its three channels, red,
/// green, blue, quantized by `byte_spec`.
pub open spec fn row_prefix_spec(
    cam: Camera,
    objs: Seq<Hitable>,
    jfx: i64,
    nxfx: i64,
    nyfx: i64,
    ns: nat,
    nsfx: i64,
    s: int,
    i: nat,
) -> (Seq<u8>, int)
    decreases i,
{
    if i == 0 {
        (Seq::empty(), s)
    } else {
        let (prev, s1) = row_prefix_spec(cam, objs, jfx, nxfx, nyfx, ns, nsfx, s, (i - 1) as nat);
        let (c, s2) = pixel_spec(cam, objs, int2fx(i - 1), jfx, nxfx, nyfx, ns, nsfx, s1);
        (prev.push(byte_spec(c.0)).push(byte_spec(c.1)).push(byte_spec(c.2)), s2)
    }
}

/// A row prefix holds three bytes per pixel.
pub proof fn lemma_row_prefix_len(
    cam: Camera,
    objs: Seq<Hitable>,
    jfx: i64,
    nxfx: i64,
    nyfx: i64,
    ns: nat,
    nsfx: i64,
    s: int,
    i: nat,
)
    ensures
        row_prefix_spec(cam, objs, jfx, nxfx, nyfx, ns, nsfx, s, i).0.len() == 3 * i,
    decreases i,
{
    if i > 0 {
        lemma_row_prefix_len(cam, objs, jfx, nxfx, nyfx, ns, nsfx, s, (i - 1) as nat);
    }
}

/// Append one full row of pixel bytes to `out`.
#[verifier::rlimit(100)]
fn row_append(
    world: &World,
    cam: &Camera,
    rng: &mut Rng,
    j: usize,
    nx: usize,
    ny: usize,
    ns: usize,
    out: &mut Vec<u8>,
)
    requires
        0 < nx <= 0x10000000,
        0 < ny <= 0x10000000,
        0 < ns <= 0x10000000,
        j < ny,
    ensures
        final(out)@ == old(out)@ + row_prefix_spec(
            *cam,
            world@,
            int2fx(j as int),
            int2fx(nx as int),
            int2fx(ny as int),
            ns as nat,
            int2fx(ns as int),
            old(rng)@,
            nx as nat,
        ).0,
        final(rng)@ == row_prefix_spec(
            *cam,
            world@,
            int2fx(j as int),
            int2fx(nx as int),
            int2fx(ny as int),
            ns as nat,
            int2fx(ns as int),
            old(rng)@,
            nx as nat,
        ).1,
{
    let ghost jfx = int2fx(j as int);
    let ghost nxfx = int2fx(nx as int);
    let ghost nyfx = int2fx(ny as int);
    let ghost nsfx = int2fx(ns as int);
    let mut i: usize = 0;
    while i < nx
        invariant
            i <= nx,
            0 < nx <= 0x10000000,
            0 < ny <= 0x10000000,
            0 < ns <= 0x10000000,
            j < ny,
            jfx == int2fx(j as int),
            nxfx == int2fx(nx as int),
            nyfx == int2fx(ny as int),
            nsfx == int2fx(ns as int),
            out@ == old(out)@ + row_prefix_spec(
                *cam,
                world@,
                jfx,
                nxfx,
                nyfx,
                ns as nat,
                nsfx,
                old(rng)@,
                i as nat,
            ).0,
            rng@ == row_prefix_spec(
                *cam,
                world@,
                jfx,
                nxfx,
                nyfx,
                ns as nat,
                nsfx,
                old(rng)@,
                i as nat,
            ).1,
        decreases nx - i,
    {
        let c = pixel(cam, world, rng, i, j, nx, ny, ns);
        out.push(to_byte(c.x()));
        out.push(to_byte(c.y()));
        out.push(to_byte(c.z()));
        proof {
            let pre = row_prefix_spec(
                *cam,
                world@,
                jfx,
                nxfx,
                nyfx,
                ns as nat,
                nsfx,
                old(rng)@,
                i as nat,
            );
            let nxt = row_prefix_spec(
                *cam,
                world@,
                jfx,
                nxfx,
                nyfx,
                ns as nat,
                nsfx,
                old(rng)@,
                (i + 1) as nat,
            );
            assert(((i + 1) as nat - 1) as nat == i as nat);
            let (pcol, ps2) = pixel_spec(
                *cam,
                world@,
                int2fx(i as int),
                jfx,
                nxfx,
                nyfx,
                ns as nat,
                nsfx,
                pre.1,
            );
            assert(nxt == (
                pre.0.push(byte_spec(pcol.0)).push(byte_spec(pcol.1)).push(byte_spec(pcol.2)),
                ps2,
            ));
            assert(out@ =~= old(out)@ + nxt.0);
        }
        i = i + 1;
    }
}

/// The bytes of the top `rows` rows of an `nyraw`-row image, from the top
/// of the image downward (the row at height `nyraw - 1` comes first),
/// threading one random stream through every pixel in raster order.
pub open spec fn frame_spec(
    cam: Camera,
    objs: Seq<Hitable>,
    nx: nat,
    nyraw: int,
    nxfx: i64,
    nyfx: i64,
    ns: nat,
    nsfx: i64,
    s: int,
    rows: nat,
) -> (Seq<u8>, int)
    decreases rows,
{
    if rows == 0 {
        (Seq::empty(), s)
    } else {
        let (prev, s1) = frame_spec(
            cam,
            objs,
            nx,
            nyraw,
            nxfx,
            nyfx,
            ns,
            nsfx,
            s,
            (rows - 1) as nat,
        );
        let (rowb, s2) = row_prefix_spec(
            cam,
            objs,
            int2fx(nyraw - rows),
            nxfx,
            nyfx,
            ns,
            nsfx,
            s1,
            nx,
        );
        (prev + rowb, s2)
    }
}

/// Render one row of the image into fresh bytes, with its own stream
/// seeded from `seed`: the unit of work for a parallel render, where each
/// row gets a distinct seed.
pub fn render_row(
    world: &World,
    cam: &Camera,
    j: usize,
    nx: usize,
    ny: usize,
    ns: usize,
    seed: u64,
) -> (row: Vec<u8>)
    requires
        0 < nx <= 0x10000000,
        0 < ny <= 0x10000000,
        0 < ns <= 0x10000000,
        j < ny,
    ensures
        row@ == row_prefix_spec(
            *cam,
            world@,
            int2fx(j as int),
            int2fx(nx as int),
            int2fx(ny as int),
            ns as nat,
            int2fx(ns as int),
            seed_state(seed),
            nx as nat,
        ).0,
        row@.len() == 3 * nx,
{
    let mut rng = Rng::new(seed);
    let mut row: Vec<u8> = Vec::new();
    row_append(world, cam, &mut rng, j, nx, ny, ns, &mut row);
    proof {
        lemma_row_prefix_len(
            *cam,
            world@,
            int2fx(j as int),
            int2fx(nx as int),
            int2fx(ny as int),
            ns as nat,
            int2fx(ns as int),
            seed_state(seed),
            nx as nat,
        );
    }
    row
}

/// A frame holds three bytes per pixel of each finished row.
pub proof fn lemma_frame_len(
    cam: Camera,
    objs: Seq<Hitable>,
    nx: nat,
    nyraw: int,
    nxfx: i64,
    nyfx: i64,
    ns: nat,
    nsfx: i64,
    s: int,
    rows: nat,
)
    ensures
        frame_spec(cam, objs, nx, nyraw, nxfx, nyfx, ns, nsfx, s, rows).0.len() == rows * (3
            * nx),
    decreases rows,
{
    if rows > 0 {
        lemma_frame_len(cam, objs, nx, nyraw, nxfx, nyfx, ns, nsfx, s, (rows - 1) as nat);
        let (prev, s1) = frame_spec(cam, objs, nx, nyraw, nxfx, nyfx, ns, nsfx, s, (rows
            - 1) as nat);
        lemma_row_prefix_len(cam, objs, int2fx(nyraw - rows), nxfx, nyfx, ns, nsfx, s1, nx);
        let (rowb, s2) = row_prefix_spec(
            cam,
            objs,
            int2fx(nyraw - rows),
            nxfx,
            nyfx,
            ns,
            nsfx,
            s1,
            nx,
        );
        assert(frame_spec(cam, objs, nx, nyraw, nxfx, nyfx, ns, nsfx, s, rows).0 == prev + rowb);
        assert(prev.len() == (rows - 1) * (3 * nx));
        assert(rowb.len() == 3 * nx);
        assert((prev + rowb).len() == prev.len() + rowb.len());
        assert(rows * (3 * nx) == (rows - 1) * (3 * nx) + 3 * nx) by (nonlinear_arith);
    } else {
        assert(frame_spec(cam, objs, nx, nyraw, nxfx, nyfx, ns, nsfx, s, rows).0.len() == 0);
        assert(rows * (3 * nx) == 0) by (nonlinear_arith)
            requires
                rows == 0,
        ;
    }
}

/// Render the whole image with a single stream seeded from `seed` and
/// advanced in strict raster order, so that equal arguments always give
/// equal bytes: the deterministic mode. Rows run from the top of the
/// image down; each pixel contributes three bytes, red, green, blue.
#[verifier::rlimit(100)]
pub fn render(
    world: &World,
    cam: &Camera,
    nx: usize,
    ny: usize,
    ns: usize,
    seed: u64,
) -> (img: Vec<u8>)
    requires
        0 < nx <= 0x10000000,
        0 < ny <= 0x10000000,
        0 < ns <= 0x10000000,
    ensures
        img@ == frame_spec(
            *cam,
            world@,
            nx as nat,
            ny as int,
            int2fx(nx as int),
            int2fx(ny as int),
            ns as nat,
            int2fx(ns as int),
            seed_state(seed),
            ny as nat,
        ).0,
        img@.len() == 3 * nx * ny,
{
    let ghost nxfx = int2fx(nx as int);
    let ghost nyfx = int2fx(ny as int);
    let ghost nsfx = int2fx(ns as int);
    let mut rng = Rng::new(seed);
    let mut img: Vec<u8> = Vec::new();
    let mut d: usize = 0;
    while d < ny
        invariant
            d <= ny,
            0 < nx <= 0x10000000,
            0 < ny <= 0x10000000,
            0 < ns <= 0x10000000,
            nxfx == int2fx(nx as int),
            nyfx == int2fx(ny as int),
            nsfx == int2fx(ns as int),
            img@ == frame_spec(
                *cam,
                world@,
                nx as nat,
                ny as int,
                nxfx,
                nyfx,
                ns as nat,
                nsfx,
                seed_state(seed),
                d as nat,
            ).0,
            rng@ == frame_spec(
                *cam,
                world@,
                nx as nat,
                ny as int,
                nxfx,
                nyfx,
                ns as nat,
                nsfx,
                seed_state(seed),
                d as nat,
            ).1,
        decreases ny - d,
    {
        let j = ny - 1 - d;
        row_append(world, cam, &mut rng, j, nx, ny, ns, &mut img);
        proof {
            let pre = frame_spec(
                *cam,
                world@,
                nx as nat,
                ny as int,
                nxfx,
                nyfx,
                ns as nat,
                nsfx,
                seed_state(seed),
                d as nat,
            );
            let nxt = frame_spec(
                *cam,
                world@,
                nx as nat,
                ny as int,
                nxfx,
                nyfx,
                ns as nat,
                nsfx,
                seed_state(seed),
                (d + 1) as nat,
            );
            assert(((d + 1) as nat - 1) as nat == d as nat);
            assert(ny as int - ((d + 1) as nat) == j as int);
            let (rb, rs2) = row_prefix_spec(
                *cam,
                world@,
                int2fx(j as int),
                nxfx,
                nyfx,
                ns as nat,
                nsfx,
                pre.1,
                nx as nat,
            );
            assert(nxt == (pre.0 + rb, rs2));
        }
        d = d + 1;
    }
    proof {
        lemma_frame_len(
            *cam,
            world@,
            nx as nat,
            ny as int,
            nxfx,
            nyfx,
            ns as nat,
            nsfx,
            seed_state(seed),
            ny as nat,
        );
        assert((ny as nat) * (3 * (nx as nat)) == 3 * nx * ny) by (nonlinear_arith);
    }
    img
}

/// Why a render request was refused at construction time.
#[derive(Clone, Copy, Debug, PartialEq, Eq, Structural)]
pub enum RenderError {
    /// The width, height or sample count was zero.
    ZeroSize,
    /// The width, height or sample count was beyond the fixed-point range.
    TooLarge,
}

impl RenderError {
    /// A short description of the refusal.
    pub fn message(&self) -> (m: &'static str)
        ensures
            self is ZeroSize ==> m@ =~= "image size and sample count must be positive"@,
            self is TooLarge ==> m@ =~= "image size or sample count too large"@,
    {
        match self {
            RenderError::ZeroSize => "image size and sample count must be positive",
            RenderError::TooLarge => "image size or sample count too large",
        }
    }
}

/// Validate the render parameters, then render deterministically: a zero
/// width, height or sample count is refused up front, as is one too large
/// for fixed-point pixel coordinates; valid parameters give exactly the
/// bytes that `render` gives.
pub fn try_render(
    world: &World,
    cam: &Camera,
    nx: usize,
    ny: usize,
    ns: usize,
    seed: u64,
) -> (res: Result<Vec<u8>, RenderError>)
    ensures
        (nx == 0 || ny == 0 || ns == 0) <==> res == Err::<Vec<u8>, RenderError>(
            RenderError::ZeroSize,
        ),
        (nx > 0 && ny > 0 && ns > 0 && (nx > 0x10000000 || ny > 0x10000000 || ns > 0x10000000))
            <==> res == Err::<Vec<u8>, RenderError>(RenderError::TooLarge),
        res matches Ok(img) ==> img@ == frame_spec(
            *cam,
            world@,
            nx as nat,
            ny as int,
            int2fx(nx as int),
            int2fx(ny as int),
            ns as nat,
            int2fx(ns as int),
            seed_state(seed),
            ny as nat,
        ).0,
{
    if nx == 0 || ny == 0 || ns == 0 {
        Err(RenderError::ZeroSize)
    } else if nx > 0x10000000 || ny > 0x10000000 || ns > 0x10000000 {
        Err(RenderError::TooLarge)
    } else {
        Ok(render(world, cam, nx, ny, ns, seed))
    }
}

} // verus!
