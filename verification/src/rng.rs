//! The injectable randomness source of the dataset generator.
//!
//! A source either draws from the process-wide generator of the `rand`
//! crate, or steps a small deterministic xorshift state, so that tests can
//! reproduce a generation run from a fixed seed.

use vstd::prelude::*;

verus! {

/// A source of uniform draws. Nothing is promised of the drawn values
/// beyond their range, so every consumer is verified for every possible
/// draw.
pub enum RandomSource {
    /// Draws from the `rand` crate's thread-local generator.
    Thread,
    /// Deterministic xorshift sequence from a caller-chosen seed.
    Seeded { state: u64 },
}

/// One step of the xorshift sequence: a seeded source's whole evolution,
/// so a seeded run is a deterministic, reproducible function of its
/// seed.
pub open spec fn xorshift_step(s: u64) -> u64 {
    let a = s ^ (s << 13);
    let b = a ^ (a >> 7);
    b ^ (b << 17)
}

/// The state a seed starts from.
pub open spec fn seed_state(seed: u64) -> u64 {
    if seed == 0 {
        0x9e3779b97f4a7c15
    } else {
        seed
    }
}

/// Relies on rand::thread_rng and rand::Rng::gen_range: a uniform draw
/// from `[0, bound)`; gen_range panics on an empty range, so the bound
/// must be positive. The draw depends on process-global state, so nothing
/// more than the range is stated.
#[verifier::external_body]
fn thread_random_below(bound: u32) -> (r: u32)
    requires
        bound > 0,
    ensures
        r < bound,
{
    rand::Rng::gen_range(&mut rand::thread_rng(), 0..bound)
}

impl RandomSource {
    /// A deterministic source. A zero seed is displaced so the xorshift
    /// state never gets stuck at zero.
    pub fn seeded(seed: u64) -> (r: RandomSource)
        ensures
            r == (RandomSource::Seeded { state: seed_state(seed) }),
    {
        if seed == 0 {
            RandomSource::Seeded { state: 0x9e3779b97f4a7c15 }
        } else {
            RandomSource::Seeded { state: seed }
        }
    }

    /// Draw a value below `bound`. A seeded source's draw and next state
    /// are functions of its state alone.
    pub fn next_below(&mut self, bound: u32) -> (r: u32)
        requires
            bound > 0,
        ensures
            r < bound,
            (*old(self)) matches RandomSource::Seeded { state } ==> *final(self)
                == (RandomSource::Seeded { state: xorshift_step(state) }) && r == (xorshift_step(
                state,
            ) % (bound as u64)) as u32,
            (*old(self)) is Thread ==> (*final(self)) is Thread,
    {
        match self {
            RandomSource::Thread => thread_random_below(bound),
            RandomSource::Seeded { state } => {
                let mut s: u64 = *state;
                s = s ^ (s << 13);
                s = s ^ (s >> 7);
                s = s ^ (s << 17);
                *state = s;
                (s % (bound as u64)) as u32
            },
        }
    }
}

} // verus!
