use vstd::prelude::*;

verus! {

/// Puts `items` in a random order with `rand`'s `SliceRandom::shuffle`,
/// driven by the thread-local generator `rand::rng()`. The crate shuffles
/// by swapping items in place, so the same items stay, each as often as
/// before; which order comes out is left open.
#[verifier::external_body]
pub(crate) fn shuffle<T>(items: &mut Vec<T>)
    ensures
        final(items)@.len() == old(items)@.len(),
        final(items)@.to_multiset() == old(items)@.to_multiset(),
{
    rand::seq::SliceRandom::shuffle(items.as_mut_slice(), &mut rand::rng());
}

} // verus!
