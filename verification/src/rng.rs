//! Random numbers that a seed repeats.

use vstd::prelude::*;

verus! {

/// The generator `rand::rngs::StdRng`, of which nothing is known.
#[verifier::external_type_specification]
#[verifier::external_body]
pub struct ExStdRng(rand::rngs::StdRng);

/// A generator together with what it has been through. [`seed_rng`] alone makes one and [`draw_below`]
/// alone draws from it, so that the history is that of the generator.
pub struct SeededRng {
    generator: rand::rngs::StdRng,
    history: Ghost<Seq<u64>>,
}

impl SeededRng {
    /// The seed that the generator was made from, then the bound of every number that was drawn from
    /// it, in order.
    pub closed spec fn history(self) -> Seq<u64> {
        self.history@
    }

    /// A generator that nothing was drawn from yet.
    pub fn new(seed: u64) -> (r: SeededRng)
        ensures
            r.history() == seq![seed],
    {
        seed_rng(seed)
    }
}

/// The number below `bound` that `rand::Rng::gen_range` draws from a generator with this history.
pub uninterp spec fn rng_pick(history: Seq<u64>, bound: u64) -> u64;

/// The number that a generator with this history gives for a bound: what is drawn, which is below the
/// bound.
pub open spec fn number_below(history: Seq<u64>, bound: u64) -> u64 {
    (rng_pick(history, bound) as int % bound as int) as u64
}

/// Calls `rand::SeedableRng::seed_from_u64`: a generator that nothing was drawn from yet.
#[verifier::external_body]
fn seed_rng(seed: u64) -> (r: SeededRng)
    ensures
        r.history() == seq![seed],
{
    SeededRng {
        generator: <rand::rngs::StdRng as rand::SeedableRng>::seed_from_u64(seed),
        history: Ghost(seq![seed]),
    }
}

/// Calls `rand::Rng::gen_range` on the numbers from 0 up to `bound`, which it does not reach. The
/// number depends on nothing but the bound and what the generator has been through.
#[verifier::external_body]
pub(crate) fn draw_below(rng: &mut SeededRng, bound: u64) -> (r: u64)
    requires
        bound > 0,
    ensures
        r < bound,
        r == rng_pick(old(rng).history(), bound),
        final(rng).history() == old(rng).history().push(bound),
{
    rand::Rng::gen_range(&mut rng.generator, 0..bound)
}

} // verus!
