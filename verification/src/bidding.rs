//! The bidding phase: the state of the auction, the calls a player may make,
//! and how a call changes the state.

use vstd::prelude::*;
use vstd::relations::{sorted_by, total_ordering};
use itertools::Itertools;

use crate::cards::{all_suits, suit_rank, Card, Koenig};
use crate::players::{
    is_in_active, next_player, other_players, others_of, seat, without_player, Player, Players,
};

verus! {

/// A king that the caller of a partner game names.
#[derive(Debug, Copy, Clone, PartialEq, Eq, PartialOrd, Structural)]
pub enum CallKoenig {
    Koenig(Koenig),
    VierterKoenig,
}

/// The game that the bidding currently stands at.
#[derive(Debug, Copy, Clone, PartialEq, Eq, Structural)]
pub enum CallStateA {
    Init,
    MeinSpiel,
    Rufer(Option<CallKoenig>),
    Piccolo(Players),
    Zwiccolo(Players),
    BesserRuferA(Option<CallKoenig>),
    BesserRuferB(CallKoenig, Card),
    Dreier,
    Farbensolo,
    SoloDreier,
    Bettler,
    BettlerOuvert,
    PiccoloOuvert(Players),
    ZwiccoloOuvert(Players),
    Trischaken,
    SechserDreier,
    Solo(Option<CallKoenig>),
}

/// A game, who called it, and who is still bidding.
#[derive(Debug, Copy, Clone, PartialEq, Eq, Structural)]
pub struct CallStateB {
    pub state: CallStateA,
    pub caller: Option<Player>,
    pub active: Players,
}

/// A bonus that can be announced on top of a game.
#[derive(Debug, Copy, Clone, PartialEq, Eq, Structural)]
pub enum CallStateAdditionsA {
    KoenigUltimo,
    VierKoenige,
    I,
    II,
    III,
    IV,
    Trull,
    Valat,
}

/// An announced bonus, who announced it, and who may still answer it.
#[derive(Debug, Copy, Clone, PartialEq, Eq, Structural)]
pub struct CallStateAdditions {
    pub addition: CallStateAdditionsA,
    pub caller: Player,
    pub active: Players,
}

/// What a double refers to: the game or a bonus.
#[derive(Debug, Copy, Clone, PartialEq, Eq, Structural)]
pub enum CallStateKontrasA {
    State(CallStateB),
    Addition(CallStateAdditions),
}

/// A double, who doubled, and who may still answer it.
#[derive(Debug, Copy, Clone, PartialEq, Eq, Structural)]
pub struct CallStateKontras {
    pub addition: CallStateKontrasA,
    pub caller: Player,
    pub active: Players,
}

/// The whole state of the bidding: the game, the announcements made on top of it,
/// and whose turn it is.
#[allow(non_snake_case)]
#[derive(Debug, Clone)]
pub struct CallStateC {
    pub state: CallStateB,
    pub additions: Vec<CallStateKontras>,
    pub nextPlayer: Player,
}

/// A bid or an announcement.
#[derive(Debug, Copy, Clone, PartialEq, Eq, PartialOrd, Structural)]
pub enum CallA {
    MeinSpiel,
    Weiter,
    Rufer,
    Piccolo,
    PiccoloMit,
    Zwiccolo,
    ZwiccoloMit,
    BesserRufer,
    Dreier,
    Farbensolo,
    SoloDreier,
    Bettler,
    BettlerOuvert,
    PiccoloOuvert,
    PiccoloOuvertMit,
    ZwiccoloOuvert,
    ZwiccoloOuvertMit,
    Trischaken,
    SechserDreier,
    Solo,
    Koenig(CallKoenig),
    Kleiner(Card),
    KoenigUltimo,
    VierKoenige,
    I,
    II,
    III,
    IV,
    Trull,
    Valat,
}

/// A call as made at the table: a bid, or a double (and re-double, ...) of
/// someone's bid.
#[derive(Debug, Copy, Clone, PartialEq, Eq, PartialOrd, Structural)]
pub enum CallB {
    Call(CallA),
    Kontra(CallA, Player),
    Rekontra(CallA, Player),
    Subrekontra(CallA, Player),
}

/// The position of a named king in the order Karo, Herz, Pik, Treff, fourth king.
pub open spec fn koenig_rank(k: CallKoenig) -> nat {
    match k {
        CallKoenig::Koenig(s) => suit_rank(s),
        CallKoenig::VierterKoenig => 4,
    }
}

/// The bids open to a player at the start of the auction.
pub open spec fn opening_calls() -> Seq<CallA> {
    seq![
        CallA::MeinSpiel, CallA::Rufer, CallA::Piccolo, CallA::Zwiccolo, CallA::BesserRufer,
        CallA::Dreier, CallA::Farbensolo, CallA::SoloDreier, CallA::Bettler,
        CallA::BettlerOuvert, CallA::PiccoloOuvert, CallA::ZwiccoloOuvert, CallA::Solo,
    ]
}

/// The bids open to the forehand once somebody has said "mein Spiel".
pub open spec fn forehand_calls() -> Seq<CallA> {
    seq![
        CallA::Rufer, CallA::Trischaken, CallA::SechserDreier, CallA::Piccolo, CallA::Zwiccolo,
        CallA::BesserRufer, CallA::Dreier, CallA::Farbensolo, CallA::SoloDreier,
        CallA::Bettler, CallA::BettlerOuvert, CallA::PiccoloOuvert, CallA::ZwiccoloOuvert,
        CallA::Solo,
    ]
}

/// The bids open to the other players once somebody has said "mein Spiel".
pub open spec fn raising_calls() -> Seq<CallA> {
    seq![
        CallA::Piccolo, CallA::Zwiccolo, CallA::BesserRufer, CallA::Dreier, CallA::Farbensolo,
        CallA::SoloDreier, CallA::Bettler, CallA::BettlerOuvert, CallA::PiccoloOuvert,
        CallA::ZwiccoloOuvert, CallA::Solo,
    ]
}

/// The kings the caller of a Rufer may name: one of each suit, then the fourth king.
pub open spec fn king_calls() -> Seq<CallB> {
    seq![
        CallB::Call(CallA::Koenig(CallKoenig::Koenig(Koenig::Karo))),
        CallB::Call(CallA::Koenig(CallKoenig::Koenig(Koenig::Herz))),
        CallB::Call(CallA::Koenig(CallKoenig::Koenig(Koenig::Pik))),
        CallB::Call(CallA::Koenig(CallKoenig::Koenig(Koenig::Treff))),
        CallB::Call(CallA::Koenig(CallKoenig::VierterKoenig)),
    ]
}

/// Bids as calls.
pub open spec fn as_calls(bids: Seq<CallA>) -> Seq<CallB> {
    bids.map_values(|c: CallA| CallB::Call(c))
}

/// The calls open to `turn` in state `s`, in the order in which they are offered.
/// Nobody may call out of turn or after leaving the bidding; of the games, only
/// the opening, "mein Spiel" and Rufer offer calls so far.
pub open spec fn possible_calls(s: CallStateC, turn: Player) -> Seq<CallB> {
    let np = s.nextPlayer;
    let b = s.state;
    if np != turn || !b.active.admits(np) {
        seq![]
    } else {
        match b.state {
            CallStateA::Init => as_calls(opening_calls()),
            CallStateA::MeinSpiel => if np == Player::Vorhand {
                as_calls(forehand_calls())
            } else {
                as_calls(raising_calls())
            },
            CallStateA::Rufer(koenig) => match (b.caller, koenig) {
                (Some(c), None) => if np == c {
                    king_calls()
                } else {
                    seq![]
                },
                (Some(c), Some(k)) => if np != c {
                    seq![CallB::Kontra(CallA::Rufer, c), CallB::Kontra(CallA::Koenig(k), c)]
                } else {
                    seq![]
                },
                _ => seq![],
            },
            _ => seq![],
        }
    }
}

/// The order `<=` on `u64`.
pub open spec fn ascending() -> spec_fn(u64, u64) -> bool {
    |a: u64, b: u64| a <= b
}

/// Merges two vectors with `Itertools::merge` from the itertools crate.
/// Its documentation promises that the result is sorted when both inputs are
/// sorted; its source takes every item of both inputs exactly once. The order
/// of the result for unsorted inputs is left unsaid here.
#[verifier::external_body]
fn merge_ascending(left: Vec<u64>, right: Vec<u64>) -> (r: Vec<u64>)
    ensures
        r@.to_multiset() == left@.to_multiset().add(right@.to_multiset()),
        sorted_by(left@, ascending()) && sorted_by(right@, ascending()) ==> sorted_by(
            r@,
            ascending(),
        ),
{
    left.into_iter().merge(right).collect()
}

/// The number of a named king in the order of `koenig_rank`.
fn koenig_code(k: CallKoenig) -> (r: u64)
    ensures
        r == koenig_rank(k),
{
    match k {
        CallKoenig::Koenig(Koenig::Karo) => 0,
        CallKoenig::Koenig(Koenig::Herz) => 1,
        CallKoenig::Koenig(Koenig::Pik) => 2,
        CallKoenig::Koenig(Koenig::Treff) => 3,
        CallKoenig::VierterKoenig => 4,
    }
}

/// The named king with the given number.
fn koenig_from_code(code: u64) -> (r: CallKoenig)
    requires
        code <= 4,
    ensures
        koenig_rank(r) == code,
{
    match code {
        0 => CallKoenig::Koenig(Koenig::Karo),
        1 => CallKoenig::Koenig(Koenig::Herz),
        2 => CallKoenig::Koenig(Koenig::Pik),
        3 => CallKoenig::Koenig(Koenig::Treff),
        _ => CallKoenig::VierterKoenig,
    }
}

/// The kings a Rufer caller may name: the kings of the four suits, merged with
/// the fourth king in the order of `koenig_rank`.
fn king_choices() -> (r: Vec<CallB>)
    ensures
        r@ == king_calls(),
{
    let suits = all_suits();
    let mut left: Vec<u64> = Vec::new();
    let mut i: usize = 0;
    while i < suits.len()
        invariant
            i <= suits.len(),
            suits@.len() == 4,
            forall|j: int| 0 <= j < 4 ==> suit_rank(#[trigger] suits@[j]) == j,
            left@.len() == i,
            forall|j: int| 0 <= j < i ==> left@[j] == j,
        decreases suits.len() - i,
    {
        let code = koenig_code(CallKoenig::Koenig(suits[i]));
        left.push(code);
        i = i + 1;
    }
    let right: Vec<u64> = vec![koenig_code(CallKoenig::VierterKoenig)];
    let ghost target: Seq<u64> = seq![0, 1, 2, 3, 4];
    proof {
        assert(left@ =~= seq![0u64, 1, 2, 3]);
        assert(target =~= left@ + right@);
        vstd::seq_lib::lemma_multiset_commutative(left@, right@);
        assert(total_ordering(ascending()));
    }
    let merged = merge_ascending(left, right);
    proof {
        vstd::seq_lib::lemma_sorted_unique(merged@, target, ascending());
    }
    let mut out: Vec<CallB> = Vec::new();
    let mut k: usize = 0;
    while k < merged.len()
        invariant
            merged@ == target,
            target == seq![0u64, 1, 2, 3, 4],
            k <= 5,
            out@ =~= king_calls().take(k as int),
        decreases merged.len() - k,
    {
        let king = koenig_from_code(merged[k]);
        assert(king_calls()[k as int] == CallB::Call(CallA::Koenig(king)));
        out.push(CallB::Call(CallA::Koenig(king)));
        k = k + 1;
        assert(out@ =~= king_calls().take(k as int));
    }
    assert(king_calls().take(5) =~= king_calls());
    out
}

/// The given bids as calls, in the same order.
fn calls_of(bids: Vec<CallA>) -> (r: Vec<CallB>)
    ensures
        r@ == as_calls(bids@),
{
    let mut out: Vec<CallB> = Vec::new();
    let mut i: usize = 0;
    while i < bids.len()
        invariant
            i <= bids.len(),
            out@ =~= as_calls(bids@).take(i as int),
        decreases bids.len() - i,
    {
        out.push(CallB::Call(bids[i]));
        i = i + 1;
        assert(out@ =~= as_calls(bids@).take(i as int));
    }
    assert(as_calls(bids@).take(bids.len() as int) =~= as_calls(bids@));
    out
}

/// The calls open to `turn` in state `s`.
pub fn get_possible_calls(s: &CallStateC, turn: Player) -> (r: Vec<CallB>)
    ensures
        r@ == possible_calls(*s, turn),
{
    let next = s.nextPlayer;
    let caller = s.state.caller;
    if next != turn {
        return vec![];
    }
    if !is_in_active(s.state.active, next) {
        return vec![];
    }
    match s.state.state {
        CallStateA::Init => {
            let bids = vec![
                CallA::MeinSpiel, CallA::Rufer, CallA::Piccolo, CallA::Zwiccolo,
                CallA::BesserRufer, CallA::Dreier, CallA::Farbensolo, CallA::SoloDreier,
                CallA::Bettler, CallA::BettlerOuvert, CallA::PiccoloOuvert,
                CallA::ZwiccoloOuvert, CallA::Solo,
            ];
            assert(bids@ =~= opening_calls());
            calls_of(bids)
        },
        CallStateA::MeinSpiel => match next {
            Player::Vorhand => {
                let bids = vec![
                    CallA::Rufer, CallA::Trischaken, CallA::SechserDreier, CallA::Piccolo,
                    CallA::Zwiccolo, CallA::BesserRufer, CallA::Dreier, CallA::Farbensolo,
                    CallA::SoloDreier, CallA::Bettler, CallA::BettlerOuvert,
                    CallA::PiccoloOuvert, CallA::ZwiccoloOuvert, CallA::Solo,
                ];
                assert(bids@ =~= forehand_calls());
                calls_of(bids)
            },
            _ => {
                let bids = vec![
                    CallA::Piccolo, CallA::Zwiccolo, CallA::BesserRufer, CallA::Dreier,
                    CallA::Farbensolo, CallA::SoloDreier, CallA::Bettler, CallA::BettlerOuvert,
                    CallA::PiccoloOuvert, CallA::ZwiccoloOuvert, CallA::Solo,
                ];
                assert(bids@ =~= raising_calls());
                calls_of(bids)
            },
        },
        CallStateA::Rufer(koenig) => match (caller, koenig) {
            (Some(c), None) if next == c => king_choices(),
            (Some(c), Some(k)) if next != c => vec![
                CallB::Kontra(CallA::Rufer, c),
                CallB::Kontra(CallA::Koenig(k), c),
            ],
            _ => vec![],
        },
        _ => vec![],
    }
}

/// The calls that `apply` can carry out so far.
pub open spec fn is_supported_call(c: CallB) -> bool {
    ||| c == CallB::Call(CallA::MeinSpiel)
    ||| c == CallB::Call(CallA::Weiter)
    ||| c == CallB::Call(CallA::Rufer)
}

/// The state after `p` makes call `c` in state `s`.
///
/// "Mein Spiel" and Rufer make `p` the caller of that game, with the other three
/// players still bidding; "weiter" keeps the game and narrows the bidders with
/// `without_player`. The turn then passes to the next seat. Other calls are
/// not carried out yet.
pub fn apply(s: CallStateC, c: CallB, p: Player) -> (r: CallStateC)
    requires
        is_supported_call(c),
    ensures
        r.additions@ == s.additions@,
        seat(r.nextPlayer) == (seat(p) + 1) % 4,
        c == CallB::Call(CallA::MeinSpiel) ==> r.state == (CallStateB {
            state: CallStateA::MeinSpiel,
            caller: Some(p),
            active: others_of(p),
        }),
        c == CallB::Call(CallA::Rufer) ==> r.state == (CallStateB {
            state: CallStateA::Rufer(None),
            caller: Some(p),
            active: others_of(p),
        }),
        c == CallB::Call(CallA::Weiter) ==> {
            &&& r.state.state == s.state.state
            &&& r.state.caller == s.state.caller
            &&& r.state.active.members() == s.state.active.members().filter(|x: Player| x == p)
        },
{
    let CallStateC { state, additions, nextPlayer: _ } = s;
    let CallStateB { state, caller, active } = state;
    match c {
        CallB::Call(CallA::MeinSpiel) => CallStateC {
            state: CallStateB {
                state: CallStateA::MeinSpiel,
                caller: Some(p),
                active: other_players(p),
            },
            additions,
            nextPlayer: next_player(p),
        },
        CallB::Call(CallA::Weiter) => CallStateC {
            state: CallStateB { state, caller, active: without_player(active, p) },
            additions,
            nextPlayer: next_player(p),
        },
        _ => CallStateC {
            state: CallStateB {
                state: CallStateA::Rufer(None),
                caller: Some(p),
                active: other_players(p),
            },
            additions,
            nextPlayer: next_player(p),
        },
    }
}

/// Nobody may call out of turn.
pub proof fn lemma_no_call_out_of_turn(s: CallStateC, turn: Player)
    requires
        turn != s.nextPlayer,
    ensures
        possible_calls(s, turn).len() == 0,
{
}

/// A player who has left the bidding is offered no call.
pub proof fn lemma_no_call_after_leaving(s: CallStateC, turn: Player)
    requires
        !s.state.active.admits(s.nextPlayer),
    ensures
        possible_calls(s, turn).len() == 0,
{
}

/// The kings offered to a Rufer caller are each king once, in the order of
/// `koenig_rank`.
pub proof fn lemma_king_calls_in_order(i: int)
    requires
        0 <= i < 5,
    ensures
        exists|k: CallKoenig|
            king_calls()[i] == CallB::Call(CallA::Koenig(k)) && #[trigger] koenig_rank(k) == i,
{
    let k = if i == 0 {
        CallKoenig::Koenig(Koenig::Karo)
    } else if i == 1 {
        CallKoenig::Koenig(Koenig::Herz)
    } else if i == 2 {
        CallKoenig::Koenig(Koenig::Pik)
    } else if i == 3 {
        CallKoenig::Koenig(Koenig::Treff)
    } else {
        CallKoenig::VierterKoenig
    };
    assert(king_calls()[i] == CallB::Call(CallA::Koenig(k)) && koenig_rank(k) == i);
}

/// After `p` says "mein Spiel", `p` is out of the bidding, and the next player
/// may raise: the forehand with the forehand's bids, anybody else with the
/// higher games.
pub proof fn lemma_after_mein_spiel(r: CallStateC, p: Player)
    requires
        r.state == (CallStateB {
            state: CallStateA::MeinSpiel,
            caller: Some(p),
            active: others_of(p),
        }),
        seat(r.nextPlayer) == (seat(p) + 1) % 4,
    ensures
        possible_calls(r, p).len() == 0,
        possible_calls(r, r.nextPlayer) == (if r.nextPlayer == Player::Vorhand {
            as_calls(forehand_calls())
        } else {
            as_calls(raising_calls())
        }),
{
    crate::players::lemma_next_is_among_others(p, r.nextPlayer);
}

/// After `p` calls a Rufer, `p` is out of the bidding, and the player whose
/// turn it is is offered no call: only the caller may name the king.
pub proof fn lemma_after_rufer(r: CallStateC, p: Player)
    requires
        r.state == (CallStateB {
            state: CallStateA::Rufer(None),
            caller: Some(p),
            active: others_of(p),
        }),
        seat(r.nextPlayer) == (seat(p) + 1) % 4,
    ensures
        possible_calls(r, p).len() == 0,
        possible_calls(r, r.nextPlayer).len() == 0,
{
    crate::players::lemma_next_is_among_others(p, r.nextPlayer);
}

/// At the opening of the auction, the player on turn who is still bidding is
/// offered exactly: mein Spiel, Rufer, Piccolo, Zwiccolo, Besser Rufer, Dreier,
/// Farbensolo, Solodreier, Bettler, Bettler ouvert, Piccolo ouvert,
/// Zwiccolo ouvert, Solo, in that order (so Rufer, and no Trischaken).
pub proof fn lemma_opening_offer(s: CallStateC, turn: Player)
    requires
        s.state.state == CallStateA::Init,
        s.nextPlayer == turn,
        s.state.active.admits(turn),
    ensures
        possible_calls(s, turn) == seq![
            CallB::Call(CallA::MeinSpiel), CallB::Call(CallA::Rufer), CallB::Call(CallA::Piccolo),
            CallB::Call(CallA::Zwiccolo), CallB::Call(CallA::BesserRufer),
            CallB::Call(CallA::Dreier), CallB::Call(CallA::Farbensolo),
            CallB::Call(CallA::SoloDreier), CallB::Call(CallA::Bettler),
            CallB::Call(CallA::BettlerOuvert), CallB::Call(CallA::PiccoloOuvert),
            CallB::Call(CallA::ZwiccoloOuvert), CallB::Call(CallA::Solo),
        ],
        possible_calls(s, turn).contains(CallB::Call(CallA::Rufer)),
        !possible_calls(s, turn).contains(CallB::Call(CallA::Trischaken)),
{
    let r = possible_calls(s, turn);
    assert(r =~= seq![
        CallB::Call(CallA::MeinSpiel), CallB::Call(CallA::Rufer), CallB::Call(CallA::Piccolo),
        CallB::Call(CallA::Zwiccolo), CallB::Call(CallA::BesserRufer),
        CallB::Call(CallA::Dreier), CallB::Call(CallA::Farbensolo),
        CallB::Call(CallA::SoloDreier), CallB::Call(CallA::Bettler),
        CallB::Call(CallA::BettlerOuvert), CallB::Call(CallA::PiccoloOuvert),
        CallB::Call(CallA::ZwiccoloOuvert), CallB::Call(CallA::Solo),
    ]);
    assert(r[1] == CallB::Call(CallA::Rufer));
    if r.contains(CallB::Call(CallA::Trischaken)) {
        let i = choose|i: int| 0 <= i < r.len() && r[i] == CallB::Call(CallA::Trischaken);
    }
}

/// After "mein Spiel", the forehand on turn is offered exactly: Rufer,
/// Trischaken, Sechserdreier, Piccolo, Zwiccolo, Besser Rufer, Dreier,
/// Farbensolo, Solodreier, Bettler, Bettler ouvert, Piccolo ouvert,
/// Zwiccolo ouvert, Solo, in that order.
pub proof fn lemma_forehand_offer_after_mein_spiel(s: CallStateC)
    requires
        s.state.state == CallStateA::MeinSpiel,
        s.nextPlayer == Player::Vorhand,
        s.state.active.admits(Player::Vorhand),
    ensures
        possible_calls(s, Player::Vorhand) == seq![
            CallB::Call(CallA::Rufer), CallB::Call(CallA::Trischaken),
            CallB::Call(CallA::SechserDreier), CallB::Call(CallA::Piccolo),
            CallB::Call(CallA::Zwiccolo), CallB::Call(CallA::BesserRufer),
            CallB::Call(CallA::Dreier), CallB::Call(CallA::Farbensolo),
            CallB::Call(CallA::SoloDreier), CallB::Call(CallA::Bettler),
            CallB::Call(CallA::BettlerOuvert), CallB::Call(CallA::PiccoloOuvert),
            CallB::Call(CallA::ZwiccoloOuvert), CallB::Call(CallA::Solo),
        ],
{
    assert(possible_calls(s, Player::Vorhand) =~= seq![
        CallB::Call(CallA::Rufer), CallB::Call(CallA::Trischaken),
        CallB::Call(CallA::SechserDreier), CallB::Call(CallA::Piccolo),
        CallB::Call(CallA::Zwiccolo), CallB::Call(CallA::BesserRufer),
        CallB::Call(CallA::Dreier), CallB::Call(CallA::Farbensolo),
        CallB::Call(CallA::SoloDreier), CallB::Call(CallA::Bettler),
        CallB::Call(CallA::BettlerOuvert), CallB::Call(CallA::PiccoloOuvert),
        CallB::Call(CallA::ZwiccoloOuvert), CallB::Call(CallA::Solo),
    ]);
}

/// After "mein Spiel", any player other than the forehand on turn and still
/// bidding is offered exactly: Piccolo, Zwiccolo, Besser Rufer, Dreier,
/// Farbensolo, Solodreier, Bettler, Bettler ouvert, Piccolo ouvert,
/// Zwiccolo ouvert, Solo, in that order; never the plain Rufer.
pub proof fn lemma_raising_offer_after_mein_spiel(s: CallStateC, turn: Player)
    requires
        s.state.state == CallStateA::MeinSpiel,
        s.nextPlayer == turn,
        turn != Player::Vorhand,
        s.state.active.admits(turn),
    ensures
        possible_calls(s, turn) == seq![
            CallB::Call(CallA::Piccolo), CallB::Call(CallA::Zwiccolo),
            CallB::Call(CallA::BesserRufer), CallB::Call(CallA::Dreier),
            CallB::Call(CallA::Farbensolo), CallB::Call(CallA::SoloDreier),
            CallB::Call(CallA::Bettler), CallB::Call(CallA::BettlerOuvert),
            CallB::Call(CallA::PiccoloOuvert), CallB::Call(CallA::ZwiccoloOuvert),
            CallB::Call(CallA::Solo),
        ],
        !possible_calls(s, turn).contains(CallB::Call(CallA::Rufer)),
{
    let r = possible_calls(s, turn);
    assert(r =~= seq![
        CallB::Call(CallA::Piccolo), CallB::Call(CallA::Zwiccolo),
        CallB::Call(CallA::BesserRufer), CallB::Call(CallA::Dreier),
        CallB::Call(CallA::Farbensolo), CallB::Call(CallA::SoloDreier),
        CallB::Call(CallA::Bettler), CallB::Call(CallA::BettlerOuvert),
        CallB::Call(CallA::PiccoloOuvert), CallB::Call(CallA::ZwiccoloOuvert),
        CallB::Call(CallA::Solo),
    ]);
    if r.contains(CallB::Call(CallA::Rufer)) {
        let i = choose|i: int| 0 <= i < r.len() && r[i] == CallB::Call(CallA::Rufer);
    }
}

/// Once the Rufer caller `c` has named the king `k`, every other player on
/// turn who is still bidding is offered exactly the two doubles: of the Rufer,
/// and of the named king, both against `c`.
pub proof fn lemma_doubles_after_king_named(s: CallStateC, turn: Player, c: Player, k: CallKoenig)
    requires
        s.state.state == CallStateA::Rufer(Some(k)),
        s.state.caller == Some(c),
        s.nextPlayer == turn,
        turn != c,
        s.state.active.admits(turn),
    ensures
        possible_calls(s, turn) == seq![
            CallB::Kontra(CallA::Rufer, c),
            CallB::Kontra(CallA::Koenig(k), c),
        ],
{
}

/// While the Rufer caller `c` has named no king yet, `c` on turn is offered
/// exactly the four suit kings, Karo, Herz, Pik, Treff, then the fourth king.
pub proof fn lemma_caller_names_king(s: CallStateC, c: Player)
    requires
        s.state.state == CallStateA::Rufer(None),
        s.state.caller == Some(c),
        s.nextPlayer == c,
        s.state.active.admits(c),
    ensures
        possible_calls(s, c) == seq![
            CallB::Call(CallA::Koenig(CallKoenig::Koenig(Koenig::Karo))),
            CallB::Call(CallA::Koenig(CallKoenig::Koenig(Koenig::Herz))),
            CallB::Call(CallA::Koenig(CallKoenig::Koenig(Koenig::Pik))),
            CallB::Call(CallA::Koenig(CallKoenig::Koenig(Koenig::Treff))),
            CallB::Call(CallA::Koenig(CallKoenig::VierterKoenig)),
        ],
{
}

} // verus!
