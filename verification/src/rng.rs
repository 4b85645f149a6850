//! Trusted boundary to the process-wide random source.

use vstd::prelude::*;

use rand::seq::SliceRandom;
use rand::Rng;

verus! {

/// Relies on rand::Rng::gen_range over `0..bound`: returns a uniformly
/// distributed value strictly below the bound, and panics only on an empty
/// range, which the precondition rules out. Nothing more can be promised of
/// a random value.
#[verifier::external_body]
pub(crate) fn random_below(bound: usize) -> (r: usize)
    requires
        bound > 0,
    ensures
        r < bound,
{
    rand::thread_rng().gen_range(0..bound)
}

/// Relies on rand::seq::SliceRandom::shuffle: a Fisher-Yates pass that
/// reorders the elements in place by swaps, so the new contents are a
/// permutation of the old. Which permutation comes out is random, so nothing
/// more is promised.
#[verifier::external_body]
pub(crate) fn shuffle_vec<T>(v: &mut Vec<T>)
    ensures
        final(v)@.len() == old(v)@.len(),
        final(v)@.to_multiset() == old(v)@.to_multiset(),
{
    v.shuffle(&mut rand::thread_rng());
}

} // verus!
