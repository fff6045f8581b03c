//! Seeded random source.
//!
//! Each obstacle factory owns one `RandomSource`, a 64-bit xorshift stream.
//! Every draw is a pure function of the stored state, so a run is
//! reproducible from its seed; the contracts pin both the next state and the
//! drawn value exactly.

use vstd::prelude::*;

verus! {

/// Replacement state for a zero seed: xorshift must never sit at zero.
pub const SEED_FALLBACK: u64 = 0x9E3779B97F4A7C15;

/// The xorshift step as a function of the current state.
pub open spec fn xorshift_s(s: u64) -> u64 {
    let a = s ^ (s << 13);
    let b = a ^ (a >> 7);
    b ^ (b << 17)
}

#[derive(Clone, Copy, Debug, PartialEq, Eq, Structural)]
pub struct RandomSource {
    pub state: u64,
}

impl RandomSource {
    /// A stream seeded with `seed`; a zero seed falls back to a fixed
    /// nonzero state.
    pub fn new(seed: u64) -> (r: RandomSource)
        ensures
            r.state == if seed == 0 {
                SEED_FALLBACK
            } else {
                seed
            },
    {
        if seed == 0 {
            RandomSource { state: SEED_FALLBACK }
        } else {
            RandomSource { state: seed }
        }
    }

    /// Advance the stream one step and hand out the new state as the draw.
    pub fn next_u64(&mut self) -> (r: u64)
        ensures
            final(self).state == xorshift_s(old(self).state),
            r == final(self).state,
    {
        let s0: u64 = self.state;
        let a: u64 = s0 ^ (s0 << 13);
        let b: u64 = a ^ (a >> 7);
        let c: u64 = b ^ (b << 17);
        self.state = c;
        c
    }

    /// A draw strictly below `bound`.
    pub fn rand_below(&mut self, bound: u64) -> (r: u64)
        requires
            bound >= 1,
        ensures
            final(self).state == xorshift_s(old(self).state),
            r == xorshift_s(old(self).state) % bound,
            r < bound,
    {
        let v: u64 = self.next_u64();
        v % bound
    }

    /// A draw in `[0, FX_ONE]` milli-units: a uniform fraction of one unit.
    pub fn unit_milli(&mut self) -> (r: i64)
        ensures
            final(self).state == xorshift_s(old(self).state),
            r == xorshift_s(old(self).state) % 1001,
            0 <= r <= 1000,
    {
        let v: u64 = self.rand_below(1001);
        v as i64
    }

    /// A draw in `[-FX_ONE, FX_ONE]` milli-units: a uniform signed fraction.
    pub fn signed_unit_milli(&mut self) -> (r: i64)
        ensures
            final(self).state == xorshift_s(old(self).state),
            r == xorshift_s(old(self).state) % 2001 - 1000,
            -1000 <= r <= 1000,
    {
        let v: u64 = self.rand_below(2001);
        (v as i64) - 1000
    }
}

} // verus!
