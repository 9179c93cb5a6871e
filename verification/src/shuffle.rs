//! Trusted boundary to the random shuffle of the `rand` crate.

use crate::track::VideoInfo;
use rand::seq::SliceRandom;
use vstd::prelude::*;

verus! {

#[verifier::external_type_specification]
#[verifier::external_body]
pub struct ExThreadRng(rand::rngs::ThreadRng);

/// Relies on rand::thread_rng: hands out the lazily initialized
/// thread-local random number generator.
#[verifier::external_body]
pub(crate) fn new_rng() -> rand::rngs::ThreadRng {
    rand::thread_rng()
}

/// Relies on rand::seq::SliceRandom::shuffle: an in-place Fisher-Yates
/// pass that only swaps elements of the slice, so the result holds
/// exactly the elements it started with, rearranged.
#[verifier::external_body]
pub(crate) fn shuffle_tracks(v: &mut Vec<VideoInfo>, rng: &mut rand::rngs::ThreadRng)
    ensures
        final(v)@.to_multiset() == old(v)@.to_multiset(),
        final(v)@.len() == old(v)@.len(),
{
    v.as_mut_slice().shuffle(rng);
}

} // verus!
