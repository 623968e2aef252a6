//! The one random number generator that every system draws from.

use vstd::prelude::*;

verus! {

/// The generator of the `rand` crate that stands behind [`GlobalRng`].
#[verifier::external_type_specification]
#[verifier::external_body]
pub struct ExStdRng(::rand::rngs::StdRng);

/// The seed to start the generator from, where a run is to be repeatable.
#[derive(Debug, Clone, Copy, PartialEq, Eq, Structural)]
pub struct RngSeed(pub u64);

/// The game's random number generator. Handing the same one to every system
/// makes a run repeat when it is started from the same seed.
pub struct GlobalRng(::rand::rngs::StdRng);

/// The generator that `rand::SeedableRng::seed_from_u64` makes of a seed.
/// The seed is spread over the generator's key by a fixed recurrence, so
/// that the generator is a function of the seed alone; what it goes on to
/// draw is not said.
pub uninterp spec fn seeded_std_rng(seed: u64) -> ::rand::rngs::StdRng;

/// `rand::SeedableRng::seed_from_u64` for `StdRng`: the generator that is
/// fixed by the seed. Nothing is claimed of its stream.
#[verifier::external_body]
fn std_rng_from_seed(seed: u64) -> (rng: ::rand::rngs::StdRng)
    ensures
        rng == seeded_std_rng(seed),
{
    ::rand::SeedableRng::seed_from_u64(seed)
}

/// `rand::SeedableRng::from_rng` for `StdRng`, fed by `rand::thread_rng`: a
/// generator seeded by the operating system, or nothing where that source
/// fails. Nothing is claimed of which it is.
#[verifier::external_body]
fn std_rng_from_thread_rng() -> Option<::rand::rngs::StdRng> {
    ::rand::SeedableRng::from_rng(::rand::thread_rng()).ok()
}

/// `rand::Rng::gen_range` over the inclusive range `low..=high`. The call
/// panics on an empty range, which the precondition leaves out; whatever is
/// drawn lies in the range.
#[verifier::external_body]
fn gen_range_inclusive(rng: &mut ::rand::rngs::StdRng, low: i64, high: i64) -> (value: i64)
    requires
        low <= high,
    ensures
        low <= value <= high,
{
    ::rand::Rng::gen_range(rng, low..=high)
}

/// `rand::Rng::gen_ratio`: true with a chance of `numerator` in
/// `denominator`. The call panics on a zero denominator and on a numerator
/// above it, which the precondition leaves out; it documents that a zero
/// numerator always gives false and a numerator equal to the denominator
/// always true.
#[verifier::external_body]
fn gen_ratio(rng: &mut ::rand::rngs::StdRng, numerator: u32, denominator: u32) -> (hit: bool)
    requires
        0 < denominator,
        numerator <= denominator,
    ensures
        numerator == 0 ==> !hit,
        numerator == denominator ==> hit,
{
    ::rand::Rng::gen_ratio(rng, numerator, denominator)
}

impl GlobalRng {
    /// The generator that is fixed by `seed`, before anything has been drawn
    /// from it. Equal seeds fix equal generators.
    pub closed spec fn seeded(seed: RngSeed) -> GlobalRng {
        GlobalRng(seeded_std_rng(seed.0))
    }

    /// The generator that is fixed by `seed`: a run that starts from the
    /// same seed starts from the same generator.
    pub fn from_seed(seed: RngSeed) -> (rng: GlobalRng)
        ensures
            rng == GlobalRng::seeded(seed),
    {
        GlobalRng(std_rng_from_seed(seed.0))
    }

    /// A generator seeded by the operating system; nothing where the system
    /// gives no seed.
    pub fn from_entropy() -> Option<GlobalRng> {
        GlobalRng::from_std_rng(std_rng_from_thread_rng())
    }

    /// The generator to start the game with: the one fixed by the seed where
    /// a seed is configured, one seeded by the operating system where none
    /// is.
    pub fn new(seed: Option<RngSeed>) -> (rng: Option<GlobalRng>)
        ensures
            seed matches Some(fixed) ==> rng == Some(GlobalRng::seeded(fixed)),
    {
        match seed {
            Some(seed) => Some(GlobalRng::from_seed(seed)),
            None => GlobalRng::from_entropy(),
        }
    }

    /// The game's generator around a generator of the `rand` crate.
    pub closed spec fn around(rng: ::rand::rngs::StdRng) -> GlobalRng {
        GlobalRng(rng)
    }

    /// Takes what seeding gave: the game's generator around the generator
    /// that was made, or nothing where none was made.
    pub fn from_std_rng(seeded: Option<::rand::rngs::StdRng>) -> (rng: Option<GlobalRng>)
        ensures
            rng == match seeded {
                Some(made) => Some(GlobalRng::around(made)),
                None => None,
            },
    {
        match seeded {
            Some(made) => Some(GlobalRng(made)),
            None => None,
        }
    }

    /// Draws a whole number between `low` and `high`, both included; nothing
    /// where `high` is below `low`.
    pub fn sample_between(&mut self, low: i64, high: i64) -> (value: Option<i64>)
        ensures
            value is Some <==> low <= high,
            value matches Some(drawn) ==> low <= drawn <= high,
    {
        if low <= high {
            Some(gen_range_inclusive(&mut self.0, low, high))
        } else {
            None
        }
    }

    /// Rolls for an event whose chance is `chance` millionths: never true at
    /// zero, always true at a million or more.
    pub fn roll(&mut self, chance: u64) -> (hit: bool)
        ensures
            chance == 0 ==> !hit,
            chance >= 1_000_000 ==> hit,
    {
        if chance >= 1_000_000 {
            true
        } else {
            gen_ratio(&mut self.0, chance as u32, 1_000_000)
        }
    }
}

} // verus!
