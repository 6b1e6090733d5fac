//! The random source and the trusted boundary around the `rand` crate.
//!
//! Every random draw the scheduler makes goes through one of the wrappers
//! below. Their contracts state only what holds of every possible outcome
//! of a draw; nothing is ever assumed about which outcome is produced.

use vstd::prelude::*;

use rand::distributions::Distribution;
use rand::distributions::Uniform;
use rand::distributions::WeightedIndex;
use rand::rngs::StdRng;
use rand::seq::SliceRandom;

use crate::domain::Continent;
use crate::domain::all_continents;

verus! {

/// The concrete random source threaded through the scheduler.
#[verifier::external_type_specification]
#[verifier::external_body]
pub struct ExStdRng(StdRng);

/// Relies on `rand::distributions::Uniform::new(low, high)` and
/// `Distribution::sample`: the sample lies in `[low, high)`; `new` panics
/// unless `low < high`.
#[verifier::external_body]
pub(crate) fn uniform_in(rng: &mut StdRng, low: usize, high: usize) -> (r: usize)
    requires
        low < high,
    ensures
        low <= r < high,
{
    Uniform::new(low, high).sample(rng)
}

/// Relies on `rand::distributions::WeightedIndex`: sampling an index built
/// from three weights yields an index below three, drawn with probability
/// proportional to its weight; `new` fails only when a weight is negative,
/// the total is zero, or the total overflows, all ruled out here.
#[verifier::external_body]
pub(crate) fn weighted_pick3(rng: &mut StdRng, w0: u32, w1: u32, w2: u32) -> (r: usize)
    requires
        0 < w0 + w1 + w2 <= u32::MAX,
    ensures
        r < 3,
{
    WeightedIndex::new([w0, w1, w2]).unwrap().sample(rng)
}

/// Relies on `rand::seq::SliceRandom::shuffle`: an in-place Fisher-Yates
/// permutation, so the vector keeps exactly its old elements, in some order.
#[verifier::external_body]
pub(crate) fn shuffle_continents(rng: &mut StdRng, v: &mut Vec<Continent>)
    ensures
        final(v)@.to_multiset() == old(v)@.to_multiset(),
{
    v.shuffle(rng)
}

/// Relies on `rand::seq::SliceRandom::choose`: a uniformly chosen element
/// of the slice; `None` is returned only when the slice is empty.
#[verifier::external_body]
pub(crate) fn choose_continent(rng: &mut StdRng, v: &Vec<Continent>) -> (r: Continent)
    requires
        v@.len() > 0,
    ensures
        v@.contains(r),
{
    *v.choose(rng).unwrap()
}

/// A continent drawn uniformly from the three fixed continents.
pub fn random_continent(rng: &mut StdRng) -> (r: Continent)
    ensures
        r == Continent::America || r == Continent::Africa || r == Continent::Eurasia,
{
    let v = all_continents();
    let c = choose_continent(rng, &v);
    proof {
        let i = choose|i: int| 0 <= i < v@.len() && v@[i] == c;
        assert(i == 0 || i == 1 || i == 2);
    }
    c
}

} // verus!
