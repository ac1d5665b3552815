//! The 54 cards of a Tarock deck.

use vstd::prelude::*;

verus! {

/// The four suits.
#[derive(Debug, Copy, Clone, PartialEq, Eq, PartialOrd, Structural)]
pub enum Suit {
    Karo,
    Herz,
    Pik,
    Treff,
}

/// The ranks of a red suit (hearts and diamonds), lowest first.
#[derive(Debug, Copy, Clone, PartialEq, Eq, PartialOrd, Structural)]
pub enum RedSuit {
    Vier,
    Drei,
    Zwei,
    As,
    Bub,
    Reiter,
    Dame,
    Koenig,
}

/// The ranks of a black suit (spades and clubs), lowest first.
#[derive(Debug, Copy, Clone, PartialEq, Eq, PartialOrd, Structural)]
pub enum BlackSuit {
    Sieben,
    Acht,
    Neun,
    Zehn,
    Bub,
    Reiter,
    Dame,
    Koenig,
}

/// A card: one of the 22 trumps (I to XXI and the Sküs) or a suit card.
#[derive(Debug, Copy, Clone, PartialEq, Eq, PartialOrd, Structural)]
pub enum Card {
    I,
    II,
    III,
    IIII,
    V,
    VI,
    VII,
    VIII,
    IX,
    X,
    XI,
    XII,
    XIII,
    XIV,
    XV,
    XVI,
    XVII,
    XVIII,
    XIX,
    XX,
    XXI,
    Skus,
    Karo(RedSuit),
    Herz(RedSuit),
    Pik(BlackSuit),
    Treff(BlackSuit),
}

/// A king is named by its suit.
pub type Koenig = Suit;

/// The position of a suit in the order Karo, Herz, Pik, Treff.
pub open spec fn suit_rank(s: Suit) -> nat {
    match s {
        Suit::Karo => 0,
        Suit::Herz => 1,
        Suit::Pik => 2,
        Suit::Treff => 3,
    }
}

/// The position of a red rank, lowest first.
pub open spec fn red_rank(r: RedSuit) -> nat {
    match r {
        RedSuit::Vier => 0,
        RedSuit::Drei => 1,
        RedSuit::Zwei => 2,
        RedSuit::As => 3,
        RedSuit::Bub => 4,
        RedSuit::Reiter => 5,
        RedSuit::Dame => 6,
        RedSuit::Koenig => 7,
    }
}

/// The position of a black rank, lowest first.
pub open spec fn black_rank(b: BlackSuit) -> nat {
    match b {
        BlackSuit::Sieben => 0,
        BlackSuit::Acht => 1,
        BlackSuit::Neun => 2,
        BlackSuit::Zehn => 3,
        BlackSuit::Bub => 4,
        BlackSuit::Reiter => 5,
        BlackSuit::Dame => 6,
        BlackSuit::Koenig => 7,
    }
}

/// The position of a card in the sorted deck: the trumps I..XXI and the Sküs
/// at 0..21, then eight cards each of Karo, Herz, Pik and Treff, lowest first.
pub open spec fn card_index(c: Card) -> nat {
    match c {
        Card::I => 0,
        Card::II => 1,
        Card::III => 2,
        Card::IIII => 3,
        Card::V => 4,
        Card::VI => 5,
        Card::VII => 6,
        Card::VIII => 7,
        Card::IX => 8,
        Card::X => 9,
        Card::XI => 10,
        Card::XII => 11,
        Card::XIII => 12,
        Card::XIV => 13,
        Card::XV => 14,
        Card::XVI => 15,
        Card::XVII => 16,
        Card::XVIII => 17,
        Card::XIX => 18,
        Card::XX => 19,
        Card::XXI => 20,
        Card::Skus => 21,
        Card::Karo(r) => 22 + red_rank(r),
        Card::Herz(r) => 30 + red_rank(r),
        Card::Pik(b) => 38 + black_rank(b),
        Card::Treff(b) => 46 + black_rank(b),
    }
}

/// The number of cards in a deck.
pub open spec fn deck_size() -> nat {
    54
}

/// `s` lists every card once, in the order of `card_index`.
pub open spec fn is_sorted_deck(s: Seq<Card>) -> bool {
    &&& s.len() == deck_size()
    &&& forall|i: int| 0 <= i < s.len() ==> card_index(#[trigger] s[i]) == i
}

/// The four suits, in the order Karo, Herz, Pik, Treff.
pub fn all_suits() -> (r: Vec<Suit>)
    ensures
        r@.len() == 4,
        forall|i: int| 0 <= i < 4 ==> suit_rank(#[trigger] r@[i]) == i,
{
    let r = vec![Suit::Karo, Suit::Herz, Suit::Pik, Suit::Treff];
    assert(suit_rank(r@[0]) == 0 && suit_rank(r@[1]) == 1 && suit_rank(r@[2]) == 2
        && suit_rank(r@[3]) == 3);
    r
}

/// The full deck of 54 cards, sorted by `card_index`.
pub fn get_full_deck() -> (r: Vec<Card>)
    ensures
        is_sorted_deck(r@),
{
    let r = vec![
        Card::I, Card::II, Card::III, Card::IIII, Card::V, Card::VI, Card::VII, Card::VIII,
        Card::IX, Card::X, Card::XI, Card::XII, Card::XIII, Card::XIV, Card::XV, Card::XVI,
        Card::XVII, Card::XVIII, Card::XIX, Card::XX, Card::XXI, Card::Skus,
        Card::Karo(RedSuit::Vier), Card::Karo(RedSuit::Drei), Card::Karo(RedSuit::Zwei),
        Card::Karo(RedSuit::As), Card::Karo(RedSuit::Bub), Card::Karo(RedSuit::Reiter),
        Card::Karo(RedSuit::Dame), Card::Karo(RedSuit::Koenig),
        Card::Herz(RedSuit::Vier), Card::Herz(RedSuit::Drei), Card::Herz(RedSuit::Zwei),
        Card::Herz(RedSuit::As), Card::Herz(RedSuit::Bub), Card::Herz(RedSuit::Reiter),
        Card::Herz(RedSuit::Dame), Card::Herz(RedSuit::Koenig),
        Card::Pik(BlackSuit::Sieben), Card::Pik(BlackSuit::Acht), Card::Pik(BlackSuit::Neun),
        Card::Pik(BlackSuit::Zehn), Card::Pik(BlackSuit::Bub), Card::Pik(BlackSuit::Reiter),
        Card::Pik(BlackSuit::Dame), Card::Pik(BlackSuit::Koenig),
        Card::Treff(BlackSuit::Sieben), Card::Treff(BlackSuit::Acht),
        Card::Treff(BlackSuit::Neun), Card::Treff(BlackSuit::Zehn), Card::Treff(BlackSuit::Bub),
        Card::Treff(BlackSuit::Reiter), Card::Treff(BlackSuit::Dame),
        Card::Treff(BlackSuit::Koenig),
    ];
    assert(forall|i: int| 0 <= i < r@.len() ==> card_index(#[trigger] r@[i]) == i);
    r
}

/// Every card has its own position in the deck, and the positions run from 0 to 53.
pub proof fn lemma_card_index_bijective(a: Card, b: Card)
    ensures
        card_index(a) < deck_size(),
        card_index(a) == card_index(b) ==> a == b,
{
}

/// A sorted deck holds every card, and each card only once.
pub proof fn lemma_sorted_deck_complete(s: Seq<Card>)
    requires
        is_sorted_deck(s),
    ensures
        s.no_duplicates(),
        forall|c: Card| s.contains(c),
{
    assert forall|i: int, j: int| 0 <= i < s.len() && 0 <= j < s.len() && i != j implies s[i]
        != s[j] by {
        lemma_card_index_bijective(s[i], s[j]);
    }
    assert forall|c: Card| s.contains(c) by {
        lemma_card_index_bijective(c, s[card_index(c) as int]);
        assert(s[card_index(c) as int] == c);
    }
}

} // verus!
