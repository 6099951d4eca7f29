//! Chance: the one place where the deck asks the random number generator.

use rand::seq::SliceRandom;
use vstd::prelude::*;

use super::card::CardKind;
use super::counts::weight_of;
use super::Deck;

verus! {

/// Calls `SliceRandom::choose_weighted` of `rand` on `kinds`, the weight of a
/// kind being its count in `deck`, as a `u32`. Taken on trust from `rand`:
/// the call fails exactly when the slice is empty or all its weights are
/// zero, and an item of weight zero is never chosen. The weights are added
/// up in a `u32`, so their sum has to fit in one. Which of the items is
/// chosen is left open.
#[verifier::external_body]
pub(crate) fn choose_weighted_kind(
    deck: &Deck,
    kinds: &Vec<CardKind>,
    rng: &mut rand::rngs::ThreadRng,
) -> (chosen: Option<CardKind>)
    requires
        weight_of(deck@, kinds@) <= u32::MAX,
    ensures
        chosen.is_none() <==> weight_of(deck@, kinds@) == 0,
        chosen matches Some(kind) ==> kinds@.contains(kind) && deck@[kind] > 0,
{
    kinds.as_slice().choose_weighted(rng, |kind| deck.card_weight(*kind)).ok().copied()
}

} // verus!
