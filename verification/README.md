# tarock

The bidding rules and the deck of the card game Tarock, as a Verus library.

- `src/players.rs`: seats, sets of bidders, turn order, and laws about them.
- `src/cards.rs`: suits, ranks and cards; the sorted 54-card deck.
- `src/deal.rs`: shuffling the deck with `rand`.
- `src/bidding.rs`: the state of the auction, the calls open to a player
  (`get_possible_calls`, using `itertools` to merge the named kings) and the
  effect of a call (`apply`).
- `app/main.rs`: a small program that deals a deck and prints one step of bidding.
