//! Random draws.

use rand::seq::SliceRandom;
use rand::Rng;
use vstd::prelude::*;

verus! {

/// Draws a number uniformly at random from `0..upper`, with `rand`'s
/// thread-local generator (`rand::Rng::gen_range`). Only the range of the
/// result is stated: the value itself depends on chance.
#[verifier::external_body]
pub(crate) fn random_below(upper: usize) -> (r: usize)
    requires
        upper > 0,
    ensures
        r < upper,
{
    rand::thread_rng().gen_range(0..upper)
}

/// Puts `items` in a random order with `rand`'s thread-local generator
/// (`rand::seq::SliceRandom::shuffle`, which only swaps items). Claimed:
/// the result holds the same items, each as many times as before; their
/// order depends on chance and is not stated.
#[verifier::external_body]
pub(crate) fn shuffle_items(items: &mut Vec<usize>)
    ensures
        final(items)@.len() == old(items)@.len(),
        final(items)@.to_multiset() == old(items)@.to_multiset(),
{
    items.shuffle(&mut rand::thread_rng());
}

} // verus!
