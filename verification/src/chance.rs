//! What is left to chance.

use rand::seq::SliceRandom;
use vstd::prelude::*;

verus! {

/// One of `items`, picked by chance.
///
/// This is `SliceRandom::choose` of the crate `rand`, called on the items
/// as a slice with the generator that `rand::thread_rng` gives: of no items
/// it gives none, and else it gives one of the items. Which one is not
/// said, and two calls may give two.
#[verifier::external_body]
pub(crate) fn pick<T: Copy>(items: &Vec<T>) -> (picked: Option<T>)
    ensures
        items@.len() == 0 ==> picked is None,
        items@.len() > 0 ==> picked is Some && items@.contains(picked->0),
{
    items.choose(&mut rand::thread_rng()).copied()
}

/// A number picked by chance.
///
/// This is `rand::random` of the crate `rand` at the type `u32`. Nothing is
/// said of the number.
#[verifier::external_body]
pub(crate) fn random_u32() -> u32 {
    rand::random()
}

} // verus!
