//! Trusted view of the pseudo-random generator used by chunk generation.
//!
//! Chunk generation must be reproducible: the same seed yields the same
//! chunk. `rand`'s `StdRng` is a deterministic algorithm (its documentation:
//! "The algorithm is deterministic"), so a generator value is characterised
//! by an abstract state, and drawing from it is a function of that state
//! alone. `rng_state`, `seeded_state` and `draw_below` name those functions;
//! the two wrappers below are the only code that touches `rand`.

use vstd::prelude::*;

use rand::Rng;
use rand::SeedableRng;

verus! {

#[verifier::external_type_specification]
#[verifier::external_body]
pub struct ExStdRng(rand::rngs::StdRng);

/// The abstract state of a generator value.
pub uninterp spec fn rng_state(rng: rand::rngs::StdRng) -> Seq<u8>;

/// The state `rand::SeedableRng::seed_from_u64` derives from a seed.
pub uninterp spec fn seeded_state(seed: u64) -> Seq<u8>;

/// What `rand::Rng::gen_range(0..bound)` yields from a given state: the drawn
/// value and the state the generator is left in.
pub uninterp spec fn draw_below(state: Seq<u8>, bound: u32) -> (u32, Seq<u8>);

/// Relies on `rand::SeedableRng::seed_from_u64` for `StdRng`: the generator
/// it returns is a function of the seed alone.
#[verifier::external_body]
pub fn rng_from_seed(seed: u64) -> (rng: rand::rngs::StdRng)
    ensures
        rng_state(rng) == seeded_state(seed),
{
    rand::rngs::StdRng::seed_from_u64(seed)
}

/// Relies on `rand::Rng::gen_range` over `0..bound` for `StdRng`: it returns
/// a value below `bound` (it panics only on an empty range, which the
/// precondition rules out), and value and successor state are a function of
/// the generator state alone.
#[verifier::external_body]
pub fn rng_below(rng: &mut rand::rngs::StdRng, bound: u32) -> (r: u32)
    requires
        bound >= 1,
    ensures
        r == draw_below(rng_state(*old(rng)), bound).0,
        rng_state(*final(rng)) == draw_below(rng_state(*old(rng)), bound).1,
        r < bound,
{
    rng.gen_range(0..bound)
}

} // verus!
