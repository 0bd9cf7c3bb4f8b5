//! Deterministic dice: a ChaCha8 stream seeded from the room's seed.
use vstd::prelude::*;
use rand::Rng;
use rand::SeedableRng;
use rand_chacha::ChaCha8Rng;

verus! {

#[verifier::external_type_specification]
#[verifier::external_body]
pub struct ExChaCha8Rng(ChaCha8Rng);

/// The value `gen_range(low..=high)` yields from a `ChaCha8Rng` seeded by
/// `seed_from_u64(seed)` after the inclusive ranges in `earlier` were drawn, in order.
pub uninterp spec fn seeded_roll(seed: u64, earlier: Seq<(u8, u8)>, low: u8, high: u8) -> u8;

/// Dice seeded from a `u64`. Every value it yields is a function of the seed and of
/// the ranges drawn before it; the record of those ranges is kept beside the stream.
pub struct GameRng {
    inner: ChaCha8Rng,
    seed: u64,
    drawn: Ghost<Seq<(u8, u8)>>,
}

impl View for GameRng {
    type V = (u64, Seq<(u8, u8)>);

    closed spec fn view(&self) -> (u64, Seq<(u8, u8)>) {
        (self.seed, self.drawn@)
    }
}

impl GameRng {
    /// `ChaCha8Rng::seed_from_u64`: a fresh stream for the seed, nothing drawn yet.
    #[verifier::external_body]
    pub fn from_seed(seed: u64) -> (r: GameRng)
        ensures
            r@ == (seed, Seq::<(u8, u8)>::empty()),
    {
        GameRng { inner: ChaCha8Rng::seed_from_u64(seed), seed, drawn: Ghost(Seq::empty()) }
    }

    /// `Rng::gen_range(low..=high)` on the stream: a value in the range, named by the
    /// seed and the ranges drawn before, and the range joins the record.
    #[verifier::external_body]
    fn roll(&mut self, low: u8, high: u8) -> (v: u8)
        requires
            low <= high,
        ensures
            v == seeded_roll(old(self)@.0, old(self)@.1, low, high),
            low <= v <= high,
            final(self)@ == (old(self)@.0, old(self)@.1.push((low, high))),
    {
        self.inner.gen_range(low..=high)
    }

    pub fn seed(&self) -> (s: u64)
        ensures
            s == self@.0,
    {
        self.seed
    }

    pub fn d6(&mut self) -> (v: u8)
        ensures
            v == seeded_roll(old(self)@.0, old(self)@.1, 1, 6),
            1 <= v <= 6,
            final(self)@ == (old(self)@.0, old(self)@.1.push((1u8, 6u8))),
    {
        self.roll(1, 6)
    }

    pub fn d20(&mut self) -> (v: u8)
        ensures
            v == seeded_roll(old(self)@.0, old(self)@.1, 1, 20),
            1 <= v <= 20,
            final(self)@ == (old(self)@.0, old(self)@.1.push((1u8, 20u8))),
    {
        self.roll(1, 20)
    }

    /// A tens value {0, 10, ..., 90} and a units value {0..=9}.
    pub fn ccc_parts(&mut self) -> (r: (u8, u8))
        ensures
            r.0 == 10 * seeded_roll(old(self)@.0, old(self)@.1, 0, 9),
            r.1 == seeded_roll(old(self)@.0, old(self)@.1.push((0u8, 9u8)), 0, 9),
            r.0 % 10 == 0 && r.0 <= 90 && r.1 <= 9,
            final(self)@ == (old(self)@.0, old(self)@.1.push((0u8, 9u8)).push((0u8, 9u8))),
    {
        let tens = self.roll(0, 9) * 10;
        let units = self.roll(0, 9);
        (tens, units)
    }
}

/// Two streams from the same seed that drew the same ranges yield the same value next.
pub proof fn lemma_roll_replay(a: GameRng, b: GameRng, low: u8, high: u8)
    requires
        a@ == b@,
    ensures
        seeded_roll(a@.0, a@.1, low, high) == seeded_roll(b@.0, b@.1, low, high),
{
}

} // verus!
