//! Shuffling the deck with the `rand` crate.

use vstd::prelude::*;
use rand::rngs::ThreadRng;
use rand::seq::SliceRandom;

use crate::cards::{deck_size, get_full_deck, lemma_sorted_deck_complete, Card};

verus! {

#[verifier::external_type_specification]
#[verifier::external_body]
pub struct ExThreadRng(ThreadRng);

/// Calls `rand::thread_rng`, the random number generator of the current thread.
/// Nothing is stated of the generator. (rand panics there only when the
/// operating system gives it no seed.)
#[verifier::external_body]
fn thread_rng() -> (r: ThreadRng) {
    rand::thread_rng()
}

/// Calls `SliceRandom::shuffle` of rand on the cards. Its source only swaps
/// cards, so the cards after the call are those before, in some order; which
/// order depends on the generator and is left unsaid. (The generator panics
/// there only when reseeding from the operating system fails.)
#[verifier::external_body]
fn shuffle_cards(cards: &mut Vec<Card>, rng: &mut ThreadRng)
    ensures
        final(cards)@.to_multiset() == old(cards)@.to_multiset(),
{
    cards.shuffle(rng)
}

/// A full deck in random order: each of the 54 cards exactly once.
pub fn shuffled_deck() -> (r: Vec<Card>)
    ensures
        r@.len() == deck_size(),
        forall|c: Card| #[trigger] r@.to_multiset().count(c) == 1,
{
    let mut deck = get_full_deck();
    let ghost sorted = deck@;
    let mut rng = thread_rng();
    shuffle_cards(&mut deck, &mut rng);
    proof {
        broadcast use vstd::seq_lib::group_to_multiset_ensures;
        lemma_sorted_deck_complete(sorted);
        sorted.lemma_multiset_has_no_duplicates();
        assert(deck@.len() == deck@.to_multiset().len());
        assert(sorted.len() == sorted.to_multiset().len());
        assert forall|c: Card| #[trigger] deck@.to_multiset().count(c) == 1 by {
            assert(sorted.contains(c));
            assert(sorted.to_multiset().contains(c));
        }
    }
    deck
}

} // verus!
