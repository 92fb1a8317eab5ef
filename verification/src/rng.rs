//! The single pseudo-random stream that drives map generation.

use crate::seed::{expand_seed, expanded};
use rand::Rng;
use vstd::prelude::*;
use wyrand::WyRand;

verus! {

/// `wyrand::WyRand`, the generator behind the stream. It is opaque here: its
/// one field, the state, is private to its crate.
#[verifier::external_type_specification]
#[verifier::external_body]
pub struct ExWyRand(WyRand);

/// The 64-bit state that a `WyRand` generator holds: the value of its one
/// field. Every output of the generator, and the state after it, is computed
/// from this value alone.
pub uninterp spec fn generator_state(source: WyRand) -> u64;

/// What `rand::Rng::random_range` gives for the inclusive range `low..=high`
/// of `u32` on a `WyRand` generator in `state`: the value drawn, then the
/// state the generator is left in. The sampling takes one or two outputs of
/// the generator and computes on them with integer arithmetic only, so both
/// depend on nothing but `state` and the two bounds.
pub uninterp spec fn ranged_draw(state: u64, low: u32, high: u32) -> (u32, u64);

/// Calls `WyRand::new`, which stores its argument as the generator's state.
#[verifier::external_body]
fn source_from_state(state: u64) -> (source: WyRand)
    ensures
        generator_state(source) == state,
{
    WyRand::new(state)
}

/// Calls `rand::Rng::random_range` on the generator with the inclusive range
/// `low..=high`.
///
/// The call panics on an empty range, which `requires` leaves out. The value
/// lies in the range. The value and the state left behind are those that
/// `ranged_draw` names for the state before the call and the two bounds.
#[verifier::external_body]
fn draw_from_source(source: &mut WyRand, low: u32, high: u32) -> (value: u32)
    requires
        low <= high,
    ensures
        low <= value <= high,
        (value, generator_state(*final(source))) == ranged_draw(
            generator_state(*old(source)),
            low,
            high,
        ),
{
    source.random_range(low..=high)
}

/// A deterministic pseudo-random stream derived from one 64-bit seed. Its
/// view is the state of the generator, which starts as the expansion of the
/// seed.
pub struct SeededRng {
    source: WyRand,
}

impl View for SeededRng {
    type V = u64;

    closed spec fn view(&self) -> u64 {
        generator_state(self.source)
    }
}

impl SeededRng {
    /// Starts the stream that belongs to `seed`: the generator starts in
    /// the state that the seed expands to.
    pub fn from_seed(seed: u64) -> (rng: SeededRng)
        ensures
            rng@ == expanded(seed),
    {
        SeededRng { source: source_from_state(expand_seed(seed)) }
    }

    /// Starts a stream in a given state of the generator.
    pub fn from_state(state: u64) -> (rng: SeededRng)
        ensures
            rng@ == state,
    {
        SeededRng { source: source_from_state(state) }
    }

    /// Draws one value from `low..=high` and advances the stream.
    pub fn draw(&mut self, low: u32, high: u32) -> (value: u32)
        requires
            low <= high,
        ensures
            low <= value <= high,
            value == ranged_draw(old(self)@, low, high).0,
            final(self)@ == ranged_draw(old(self)@, low, high).1,
    {
        draw_from_source(&mut self.source, low, high)
    }
}

} // verus!
