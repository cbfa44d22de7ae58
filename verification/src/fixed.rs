//! Fixed-point scalar arithmetic.
//!
//! Every scalar of the renderer is an `i64` holding the value scaled by
//! `FX_ONE`. All operations are total: a result out of range saturates to the
//! `i64` bounds, a quotient with a zero divisor is zero, and the square root
//! of a negative value is zero. Each executable operation returns exactly the
//! value of its specification function.

use vstd::prelude::*;

verus! {

/// Fixed-point representation of 1: a scalar stores its value times `FX_ONE`.
pub const FX_ONE: i64 = 65536;

/// Fixed-point representation of 2.
pub const FX_TWO: i64 = 131072;

/// Magnitude of an integer.
pub open spec fn mag(x: int) -> int {
    if x < 0 {
        -x
    } else {
        x
    }
}

/// Clamp an unbounded integer into the `i64` range.
pub open spec fn sat64(x: int) -> int {
    if x < i64::MIN {
        i64::MIN as int
    } else if x > i64::MAX {
        i64::MAX as int
    } else {
        x
    }
}

/// Division truncated toward zero, as machine division computes it, extended
/// with a zero quotient for a zero divisor.
pub open spec fn qdiv(a: int, b: int) -> int {
    if b == 0 {
        0
    } else if (a < 0) == (b < 0) {
        mag(a) / mag(b)
    } else {
        -(mag(a) / mag(b))
    }
}

/// The largest integer whose square does not exceed `n` (for `n >= 0`).
pub open spec fn sqrt_floor(n: int) -> int {
    choose|r: int| 0 <= r && #[trigger] (r * r) <= n && n < (r + 1) * (r + 1)
}

/// Saturating fixed-point sum.
pub open spec fn fadd(a: i64, b: i64) -> i64 {
    sat64(a + b) as i64
}

/// Saturating fixed-point difference.
pub open spec fn fsub(a: i64, b: i64) -> i64 {
    sat64(a - b) as i64
}

/// Saturating fixed-point negation.
pub open spec fn fneg(a: i64) -> i64 {
    sat64(-a) as i64
}

/// Saturating fixed-point product: `a * b / FX_ONE`, truncated toward zero.
pub open spec fn fmul(a: i64, b: i64) -> i64 {
    sat64(qdiv(a * b, FX_ONE as int)) as i64
}

/// Saturating fixed-point quotient: `a * FX_ONE / b`, truncated toward zero;
/// zero when `b` is zero.
pub open spec fn fdiv(a: i64, b: i64) -> i64 {
    sat64(qdiv(a * (FX_ONE as int), b as int)) as i64
}

/// Fixed-point square root: `sqrt(x / FX_ONE) * FX_ONE`, rounded down;
/// zero for any `x <= 0`.
pub open spec fn fsqrt(x: i64) -> i64 {
    if x <= 0 {
        0
    } else {
        sqrt_floor(x * (FX_ONE as int)) as i64
    }
}

/// A square root exists for every nonnegative integer.
proof fn lemma_sqrt_exists(n: int) -> (r: int)
    requires
        0 <= n,
    ensures
        0 <= r,
        r * r <= n,
        n < (r + 1) * (r + 1),
    decreases n,
{
    if n == 0 {
        0
    } else {
        let p = lemma_sqrt_exists(n - 1);
        if n < (p + 1) * (p + 1) {
            p
        } else {
            assert(n == (p + 1) * (p + 1));
            assert(n < (p + 2) * (p + 2)) by (nonlinear_arith)
                requires
                    n == (p + 1) * (p + 1),
                    0 <= p,
            ;
            p + 1
        }
    }
}

/// `sqrt_floor(n)` equals any integer `s` with `s * s <= n < (s + 1) * (s + 1)`.
pub proof fn lemma_sqrt_floor_is(n: int, s: int)
    requires
        0 <= s,
        s * s <= n,
        n < (s + 1) * (s + 1),
    ensures
        sqrt_floor(n) == s,
{
    assert(exists|r: int| 0 <= r && #[trigger] (r * r) <= n && n < (r + 1) * (r + 1)) by {
        assert(0 <= s && s * s <= n && n < (s + 1) * (s + 1));
    }
    let r = sqrt_floor(n);
    assert(0 <= r && r * r <= n && n < (r + 1) * (r + 1));
    assert(r == s) by (nonlinear_arith)
        requires
            0 <= r,
            r * r <= n,
            n < (r + 1) * (r + 1),
            0 <= s,
            s * s <= n,
            n < (s + 1) * (s + 1),
    ;
}

/// The bounds defining `sqrt_floor` hold of it for every nonnegative `n`.
pub proof fn lemma_sqrt_floor_bounds(n: int)
    requires
        0 <= n,
    ensures
        0 <= sqrt_floor(n),
        sqrt_floor(n) * sqrt_floor(n) <= n,
        n < (sqrt_floor(n) + 1) * (sqrt_floor(n) + 1),
{
    let w = lemma_sqrt_exists(n);
    lemma_sqrt_floor_is(n, w);
}

/// Dividing a scalar by one is exact.
pub proof fn lemma_fdiv_one(x: i64)
    ensures
        fdiv(x, FX_ONE) == x,
        fmul(x, FX_ONE) == x,
        fmul(FX_ONE, x) == x,
{
    let m = mag(x as int);
    vstd::arithmetic::div_mod::lemma_div_multiples_vanish(m, 65536);
    assert(65536 * m == m * 65536);
    assert(mag(x as int * 65536) == m * 65536);
    assert(mag(65536 * x as int) == m * 65536);
}

/// The product of two whole-unit scalars is the whole-unit scalar of the
/// product, whenever everything stays in range.
pub proof fn lemma_fmul_units(p: int, q: int)
    requires
        mag(p) <= 0x400000,
        mag(q) <= 0x400000,
    ensures
        fmul((p * 65536) as i64, (q * 65536) as i64) == ((p * q) * 65536) as i64,
{
    let a = p * 65536;
    let b = q * 65536;
    assert(mag(a) <= 0x4000000000 && mag(b) <= 0x4000000000);
    assert(a * b == ((p * q) * 65536) * 65536) by (nonlinear_arith)
        requires
            a == p * 65536,
            b == q * 65536,
    ;
    assert(mag(a * b) == mag((p * q) * 65536) * 65536) by (nonlinear_arith)
        requires
            a * b == ((p * q) * 65536) * 65536,
    ;
    vstd::arithmetic::div_mod::lemma_div_multiples_vanish(mag((p * q) * 65536), 65536);
    assert(65536 * mag((p * q) * 65536) == mag((p * q) * 65536) * 65536);
    assert(mag(p * q) <= 0x160000000000) by (nonlinear_arith)
        requires
            mag(p) <= 0x400000,
            mag(q) <= 0x400000,
    ;
    assert((a * b < 0) == ((p * q) * 65536 < 0)) by (nonlinear_arith)
        requires
            a * b == ((p * q) * 65536) * 65536,
    ;
    assert(qdiv(a * b, 65536) == (p * q) * 65536);
}

/// The square root of the square of a whole-unit scalar is exact.
pub proof fn lemma_fsqrt_units(k: int)
    requires
        0 < k <= 0x400000,
    ensures
        fsqrt(((k * k) * 65536) as i64) == (k * 65536) as i64,
{
    let n = ((k * k) * 65536) * 65536;
    assert(0 < (k * k) * 65536) by (nonlinear_arith)
        requires
            0 < k,
    ;
    assert((k * k) * 65536 <= 0x100000000000 * 65536) by (nonlinear_arith)
        requires
            0 < k <= 0x400000,
    ;
    assert((k * 65536) * (k * 65536) == n) by (nonlinear_arith)
        requires
            n == ((k * k) * 65536) * 65536,
    ;
    assert(n < (k * 65536 + 1) * (k * 65536 + 1)) by (nonlinear_arith)
        requires
            n == (k * 65536) * (k * 65536),
            0 < k,
    ;
    lemma_sqrt_floor_is(n, k * 65536);
}

/// Magnitude of an `i64`, exact even for `i64::MIN`.
fn mag64(a: i64) -> (m: u128)
    ensures
        m as int == mag(a as int),
{
    if a < 0 {
        (-(a as i128)) as u128
    } else {
        a as u128
    }
}

/// Saturate a signed value, given as a sign and a magnitude, into an `i64`.
fn sat_signed(neg: bool, m: u128) -> (r: i64)
    ensures
        r as int == sat64(
            if neg {
                -(m as int)
            } else {
                m as int
            },
        ),
{
    if neg {
        if m >= 9223372036854775808u128 {
            i64::MIN
        } else {
            -(m as i64)
        }
    } else {
        if m > 9223372036854775807u128 {
            i64::MAX
        } else {
            m as i64
        }
    }
}

/// Saturating sum of two scalars.
pub fn fx_add(a: i64, b: i64) -> (r: i64)
    ensures
        r == fadd(a, b),
{
    let s: i128 = a as i128 + b as i128;
    if s > i64::MAX as i128 {
        i64::MAX
    } else if s < i64::MIN as i128 {
        i64::MIN
    } else {
        s as i64
    }
}

/// Saturating difference of two scalars.
pub fn fx_sub(a: i64, b: i64) -> (r: i64)
    ensures
        r == fsub(a, b),
{
    let s: i128 = a as i128 - b as i128;
    if s > i64::MAX as i128 {
        i64::MAX
    } else if s < i64::MIN as i128 {
        i64::MIN
    } else {
        s as i64
    }
}

/// Saturating negation of a scalar.
pub fn fx_neg(a: i64) -> (r: i64)
    ensures
        r == fneg(a),
{
    if a == i64::MIN {
        i64::MAX
    } else {
        -a
    }
}

/// Saturating fixed-point product of two scalars.
pub fn fx_mul(a: i64, b: i64) -> (r: i64)
    ensures
        r == fmul(a, b),
{
    let neg: bool = (a < 0) != (b < 0);
    let ma: u128 = mag64(a);
    let mb: u128 = mag64(b);
    proof {
        assert((ma as int) * (mb as int) == mag((a as int) * (b as int))) by (nonlinear_arith)
            requires
                ma as int == mag(a as int),
                mb as int == mag(b as int),
        ;
        assert((ma as int) * (mb as int) <= 0x8000000000000000 * 0x8000000000000000) by (nonlinear_arith)
            requires
                0 <= ma as int <= 0x8000000000000000,
                0 <= mb as int <= 0x8000000000000000,
        ;
        assert(((a as int) * (b as int) < 0) == (a as int != 0 && b as int != 0 && ((a < 0) != (b
        < 0)))) by (nonlinear_arith);
    }
    let q: u128 = (ma * mb) / 65536;
    sat_signed(neg, q)
}

/// Saturating fixed-point quotient of two scalars; zero when `b` is zero.
pub fn fx_div(a: i64, b: i64) -> (r: i64)
    ensures
        r == fdiv(a, b),
{
    if b == 0 {
        return 0;
    }
    let neg: bool = (a < 0) != (b < 0);
    let ma: u128 = mag64(a) * 65536;
    let mb: u128 = mag64(b);
    let q: u128 = ma / mb;
    sat_signed(neg, q)
}

/// Binary search for the integer square root.
fn isqrt(n: u128) -> (r: u64)
    requires
        (n as int) < 0x8000000000000000 * 0x8000000000000000,
    ensures
        (r as int) * (r as int) <= n as int,
        (n as int) < ((r as int) + 1) * ((r as int) + 1),
{
    let mut lo: u128 = 0;
    let mut hi: u128 = 0x8000000000000000u128;
    proof {
        assert((hi as int) * (hi as int) == 0x8000000000000000 * 0x8000000000000000);
    }
    while hi - lo > 1
        invariant
            lo < hi,
            hi <= 0x8000000000000000u128,
            (lo as int) * (lo as int) <= n as int,
            (n as int) < (hi as int) * (hi as int),
        decreases hi - lo,
    {
        let mid: u128 = lo + (hi - lo) / 2;
        proof {
            assert((mid as int) * (mid as int) < 0x8000000000000000 * 0x8000000000000000) by (nonlinear_arith)
                requires
                    0 <= (mid as int) < 0x8000000000000000,
            ;
        }
        if mid * mid <= n {
            lo = mid;
        } else {
            hi = mid;
        }
    }
    lo as u64
}

/// Fixed-point square root of a scalar; zero for any `x <= 0`.
pub fn fx_sqrt(x: i64) -> (r: i64)
    ensures
        r == fsqrt(x),
{
    if x <= 0 {
        return 0;
    }
    let n: u128 = (x as u128) * 65536;
    let s: u64 = isqrt(n);
    proof {
        assert((s as int) < 0x10000000000) by (nonlinear_arith)
            requires
                0 <= s as int,
                (s as int) * (s as int) <= n as int,
                (n as int) < 0x10000000000 * 0x10000000000,
        ;
        lemma_sqrt_floor_is(n as int, s as int);
    }
    s as i64
}

} // verus!
