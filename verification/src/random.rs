//! The seeded stream of random words that burst directions are drawn from.

use vstd::prelude::*;
use rand::{RngCore, SeedableRng};

verus! {

/// `rand_chacha::ChaCha8Rng`, the generator, of which nothing is known but
/// what the two functions below say of it.
#[verifier::external_type_specification]
#[verifier::external_body]
pub struct ExChaCha8Rng(rand_chacha::ChaCha8Rng);

/// The word at position `index` of the ChaCha stream with 8 rounds that is
/// keyed by `seed`.
pub uninterp spec fn chacha8_word(seed: u64, index: nat) -> u32;

/// The word that a generator yields after `ahead` further draws.
pub uninterp spec fn upcoming_word(rng: rand_chacha::ChaCha8Rng, ahead: nat) -> u32;

/// `ChaCha8Rng::seed_from_u64`: the generator at the start of the stream
/// that the seed keys. The stream depends on the seed alone.
#[verifier::external_body]
fn seed_generator(seed: u64) -> (rng: rand_chacha::ChaCha8Rng)
    ensures
        forall|k: nat| #[trigger] upcoming_word(rng, k) == chacha8_word(seed, k),
{
    rand_chacha::ChaCha8Rng::seed_from_u64(seed)
}

/// `ChaCha8Rng::next_u32`: hands out the next word of the stream and moves
/// the generator one word on.
#[verifier::external_body]
fn next_word(rng: &mut rand_chacha::ChaCha8Rng) -> (w: u32)
    ensures
        w == upcoming_word(*old(rng), 0),
        forall|k: nat| #[trigger] upcoming_word(*final(rng), k) == upcoming_word(*old(rng), k + 1),
{
    rng.next_u32()
}

/// A stream of random words, fixed by its seed.
pub struct RandomSource {
    rng: rand_chacha::ChaCha8Rng,
}

impl RandomSource {
    /// The word that the source yields after `ahead` further draws.
    pub closed spec fn word(&self, ahead: nat) -> u32 {
        upcoming_word(self.rng, ahead)
    }

    /// The source at the start of the stream keyed by `seed`.
    pub fn new(seed: u64) -> (source: RandomSource)
        ensures
            forall|k: nat| #[trigger] source.word(k) == chacha8_word(seed, k),
    {
        RandomSource { rng: seed_generator(seed) }
    }

    /// Draws the next word.
    pub fn next_u32(&mut self) -> (w: u32)
        ensures
            w == old(self).word(0),
            forall|k: nat| #[trigger] final(self).word(k) == old(self).word(k + 1),
    {
        next_word(&mut self.rng)
    }
}

} // verus!
