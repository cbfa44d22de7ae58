//! A deterministic source of uniform fixed-point values in `[0, 1)`.
//!
//! The generator is the classic 48-bit linear congruential recurrence
//! `x' = (25214903917 * x + 11) mod 2^48`, seeded the way `srand48` seeds
//! it. It is an explicit value passed to every function that draws from it,
//! so determinism and parallel safety are controlled at the call site: one
//! stream advanced in raster order gives a reproducible render, one
//! fresh-seeded stream per work unit gives a parallel one.

use vstd::prelude::*;

verus! {

/// The multiplier of the recurrence.
pub const LCG_MUL: u64 = 25214903917;

/// The increment of the recurrence.
pub const LCG_ADD: u64 = 11;

/// The modulus of the recurrence: `2^48`.
pub const LCG_MOD: u64 = 281474976710656;

/// One step of the recurrence.
pub open spec fn lcg(s: int) -> int {
    (s * (LCG_MUL as int) + (LCG_ADD as int)) % (LCG_MOD as int)
}

/// The fixed-point value in `[0, FX_ONE)` held in bits 47..32 of a state.
pub open spec fn lcg_out(s: int) -> i64 {
    (s % (LCG_MOD as int) / 0x100000000) as i64
}

/// The state that a seed starts: the low 32 seed bits above a fixed tail,
/// as `srand48` arranges them.
pub open spec fn seed_state(seed: u64) -> int {
    (seed as int % 0x100000000) * 0x10000 + 0x330E
}

/// A pseudo-random stream: 48 bits of state, always below `LCG_MOD`.
pub struct Rng {
    state: u64,
}

impl View for Rng {
    type V = int;

    /// The current state, as a mathematical integer.
    closed spec fn view(&self) -> int {
        self.state as int
    }
}

impl Rng {
    /// A stream starting from `seed`.
    pub fn new(seed: u64) -> (r: Rng)
        ensures
            r@ == seed_state(seed),
    {
        Rng { state: (seed % 0x100000000) * 0x10000 + 0x330E }
    }
}

/// Advance the stream one step and yield a uniform fixed-point value in
/// `[0, 1)`: the top 16 of the new state's 48 bits.
pub fn drand(rng: &mut Rng) -> (r: i64)
    ensures
        final(rng)@ == lcg(old(rng)@),
        r == lcg_out(lcg(old(rng)@)),
        0 <= r < crate::fixed::FX_ONE,
{
    let s2: u64 = (((rng.state as u128) * 25214903917u128 + 11u128) % 281474976710656u128)
        as u64;
    rng.state = s2;
    (s2 / 0x100000000) as i64
}

} // verus!
