//! The library's only source of randomness: thin trusted wrappers
//! around the `rand` crate's thread-local generator. Every function of
//! the library that consumes a random value states what holds of any
//! outcome, so nothing downstream depends on which value came back.

use vstd::prelude::*;

use rand::Rng;
use rand::seq::SliceRandom;

verus! {

#[verifier::external_type_specification]
#[verifier::external_body]
pub struct ExThreadRng(rand::rngs::ThreadRng);

/// Relies on rand::thread_rng: a handle to the thread-local generator.
pub assume_specification[ rand::thread_rng ]() -> rand::rngs::ThreadRng;

/// Relies on rand::Rng::gen_range: a value drawn uniformly from
/// `[0, bound)`; the call panics only on an empty range, which the
/// precondition rules out.
#[verifier::external_body]
pub fn gen_index_below(rng: &mut rand::rngs::ThreadRng, bound: usize) -> (r: usize)
    requires
        bound >= 1,
    ensures
        r < bound,
{
    rng.gen_range(0..bound)
}

/// Relies on rand::seq::SliceRandom::shuffle: the slice is permuted in
/// place, so the multiset of its elements (and hence its length) is
/// unchanged.
#[verifier::external_body]
pub fn shuffle_ids(ids: &mut Vec<i32>, rng: &mut rand::rngs::ThreadRng)
    ensures
        final(ids)@.len() == old(ids)@.len(),
        final(ids)@.to_multiset() == old(ids)@.to_multiset(),
{
    ids.shuffle(rng)
}

} // verus!
