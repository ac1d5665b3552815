use tarock::cards::{all_suits, get_full_deck, BlackSuit, Card, RedSuit, Suit};
use tarock::deal::shuffled_deck;

#[test]
fn full_deck_has_54_distinct_cards() {
    let deck = get_full_deck();
    assert_eq!(deck.len(), 54);
    for i in 0..deck.len() {
        for j in 0..deck.len() {
            if i != j {
                assert_ne!(deck[i], deck[j]);
            }
        }
    }
}

#[test]
fn full_deck_order() {
    let deck = get_full_deck();
    assert_eq!(deck[0], Card::I);
    assert_eq!(deck[3], Card::IIII);
    assert_eq!(deck[20], Card::XXI);
    assert_eq!(deck[21], Card::Skus);
    assert_eq!(deck[22], Card::Karo(RedSuit::Vier));
    assert_eq!(deck[29], Card::Karo(RedSuit::Koenig));
    assert_eq!(deck[30], Card::Herz(RedSuit::Vier));
    assert_eq!(deck[38], Card::Pik(BlackSuit::Sieben));
    assert_eq!(deck[46], Card::Treff(BlackSuit::Sieben));
    assert_eq!(deck[53], Card::Treff(BlackSuit::Koenig));
}

#[test]
fn suits_in_order() {
    assert_eq!(all_suits(), vec![Suit::Karo, Suit::Herz, Suit::Pik, Suit::Treff]);
}

#[test]
fn shuffled_deck_is_a_permutation_of_the_full_deck() {
    let shuffled = shuffled_deck();
    let full = get_full_deck();
    assert_eq!(shuffled.len(), 54);
    for c in &full {
        assert_eq!(shuffled.iter().filter(|x| *x == c).count(), 1);
    }
}
