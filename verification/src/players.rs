//! Seats at the table and sets of players taking part in the bidding.

use vstd::prelude::*;

verus! {

/// The four seats at the table, in the order in which they bid.
#[derive(Debug, Copy, Clone, PartialEq, Eq, PartialOrd, Structural)]
pub enum Player {
    Vorhand,
    Player1,
    Player2,
    Geber,
}

/// Up to four players, listed in a fixed order.
#[derive(Debug, Copy, Clone, PartialEq, Eq, Structural)]
pub enum Players {
    Nobody,
    One(Player),
    Two(Player, Player),
    Three(Player, Player, Player),
    Four(Player, Player, Player, Player),
}

/// The position of a seat in the bidding round: the forehand bids first, the dealer last.
pub open spec fn seat(p: Player) -> nat {
    match p {
        Player::Vorhand => 0,
        Player::Player1 => 1,
        Player::Player2 => 2,
        Player::Geber => 3,
    }
}

impl Players {
    /// The players listed, in the order in which they are listed.
    pub open spec fn members(self) -> Seq<Player> {
        match self {
            Players::Nobody => seq![],
            Players::One(a) => seq![a],
            Players::Two(a, b) => seq![a, b],
            Players::Three(a, b, c) => seq![a, b, c],
            Players::Four(a, b, c, d) => seq![a, b, c, d],
        }
    }

    /// A set of players is "active" for `p` when it names `p`, or when it is a
    /// full table of four (which stands for everybody).
    pub open spec fn admits(self, p: Player) -> bool {
        self is Four || self.members().contains(p)
    }
}

/// Whether `p` is among the players still taking part.
pub fn is_in_active(ps: Players, p: Player) -> (r: bool)
    ensures
        r == ps.admits(p),
        r == (ps is Four || ps.members().contains(p)),
{
    let r = match ps {
        Players::One(p1) if p1 == p => true,
        Players::Two(p1, p2) if p1 == p || p2 == p => true,
        Players::Three(p1, p2, p3) if p1 == p || p2 == p || p3 == p => true,
        Players::Four(_, _, _, _) => true,
        _ => false,
    };
    proof {
        let m = ps.members();
        if r && !(ps is Four) {
            if m[0] == p {
                assert(m.contains(p));
            } else if m[1] == p {
                assert(m.contains(p));
            } else {
                assert(m[2] == p);
                assert(m.contains(p));
            }
        }
        if !r && m.contains(p) {
            let i = choose|i: int| 0 <= i < m.len() && m[i] == p;
            assert(false);
        }
    }
    r
}

/// The three players other than `p`, in the order in which the table names them.
pub open spec fn others_of(p: Player) -> Players {
    match p {
        Player::Geber => Players::Three(Player::Vorhand, Player::Player1, Player::Player2),
        Player::Player1 => Players::Three(Player::Geber, Player::Vorhand, Player::Player2),
        Player::Player2 => Players::Three(Player::Geber, Player::Player1, Player::Vorhand),
        Player::Vorhand => Players::Three(Player::Geber, Player::Player1, Player::Player2),
    }
}

/// The three players other than `p`.
pub fn other_players(p: Player) -> (r: Players)
    ensures
        r == others_of(p),
{
    match p {
        Player::Geber => Players::Three(Player::Vorhand, Player::Player1, Player::Player2),
        Player::Player1 => Players::Three(Player::Geber, Player::Vorhand, Player::Player2),
        Player::Player2 => Players::Three(Player::Geber, Player::Player1, Player::Vorhand),
        Player::Vorhand => Players::Three(Player::Geber, Player::Player1, Player::Player2),
    }
}

/// The seat that bids after `p`.
pub fn next_player(p: Player) -> (r: Player)
    ensures
        seat(r) == (seat(p) + 1) % 4,
{
    match p {
        Player::Geber => Player::Vorhand,
        Player::Player1 => Player::Player2,
        Player::Player2 => Player::Geber,
        Player::Vorhand => Player::Player1,
    }
}

/// The members of `ps` that are equal to `p`, in their order; the result
/// holds as many players as remain.
pub fn without_player(ps: Players, p: Player) -> (r: Players)
    ensures
        r.members() == ps.members().filter(|x: Player| x == p),
{
    let players: Vec<Player> = match ps {
        Players::Nobody => vec![],
        Players::One(p1) => vec![p1],
        Players::Two(p1, p2) => vec![p1, p2],
        Players::Three(p1, p2, p3) => vec![p1, p2, p3],
        Players::Four(p1, p2, p3, p4) => vec![p1, p2, p3, p4],
    };
    assert(players@ =~= ps.members());
    let ghost pred = |x: Player| x == p;
    let mut kept: Vec<Player> = Vec::new();
    let mut i: usize = 0;
    while i < players.len()
        invariant
            i <= players.len(),
            players@ == ps.members(),
            pred == (|x: Player| x == p),
            kept@ == players@.take(i as int).filter(pred),
        decreases players.len() - i,
    {
        let x = players[i];
        proof {
            assert(players@.take(i + 1) =~= players@.take(i as int).push(x));
            players@.take(i as int).lemma_filter_push(x, pred);
            assert(pred(x) == (x == p));
        }
        if x == p {
            kept.push(x);
        }
        i = i + 1;
    }
    assert(players@.take(players.len() as int) =~= players@);
    proof {
        players@.lemma_filter_len(pred);
    }
    assert(kept@ == ps.members().filter(|x: Player| x == p));
    if kept.len() == 0 {
        assert(Players::Nobody.members() =~= kept@);
        return Players::Nobody;
    }
    if kept.len() == 1 {
        assert(Players::One(kept[0]).members() =~= kept@);
        return Players::One(kept[0]);
    }
    if kept.len() == 2 {
        assert(Players::Two(kept[0], kept[1]).members() =~= kept@);
        return Players::Two(kept[0], kept[1]);
    }
    if kept.len() == 3 {
        assert(Players::Three(kept[0], kept[1], kept[2]).members() =~= kept@);
        return Players::Three(kept[0], kept[1], kept[2]);
    }
    assert(Players::Four(kept[0], kept[1], kept[2], kept[3]).members() =~= kept@);
    Players::Four(kept[0], kept[1], kept[2], kept[3])
}

/// Each seat has its own place in the bidding round, one of the places 0 to 3.
pub proof fn lemma_seat_bijective(a: Player, b: Player)
    ensures
        seat(a) < 4,
        seat(a) == seat(b) ==> a == b,
{
}

/// Passing the turn on four times comes back to the same seat, and each of the
/// other three seats gets the turn once on the way.
pub proof fn lemma_turns_go_round(p: Player, q1: Player, q2: Player, q3: Player, q4: Player)
    requires
        seat(q1) == (seat(p) + 1) % 4,
        seat(q2) == (seat(q1) + 1) % 4,
        seat(q3) == (seat(q2) + 1) % 4,
        seat(q4) == (seat(q3) + 1) % 4,
    ensures
        q4 == p,
        q1 != p && q2 != p && q3 != p,
        q1 != q2 && q1 != q3 && q2 != q3,
{
}

/// The other players of `p` are three distinct players, and they are exactly
/// the players who are not `p`.
pub proof fn lemma_others_are_the_rest(p: Player, q: Player)
    ensures
        others_of(p).members().len() == 3,
        others_of(p).members().no_duplicates(),
        others_of(p).admits(q) <==> q != p,
{
    let m = others_of(p).members();
    if q != p {
        if m[0] == q {
            assert(m.contains(q));
        } else if m[1] == q {
            assert(m.contains(q));
        } else {
            assert(m[2] == q);
            assert(m.contains(q));
        }
    } else if m.contains(q) {
        let i = choose|i: int| 0 <= i < m.len() && m[i] == q;
    }
}

/// The turn passes from `p` to a player who is among the other players of `p`.
pub proof fn lemma_next_is_among_others(p: Player, q: Player)
    requires
        seat(q) == (seat(p) + 1) % 4,
    ensures
        q != p,
        others_of(p).admits(q),
{
    lemma_others_are_the_rest(p, q);
}

/// What `without_player` keeps of a list names nobody but `p`, and keeps every
/// mention of `p`.
pub proof fn lemma_kept_only_p(s: Seq<Player>, p: Player, q: Player)
    requires
        q != p,
    ensures
        !s.filter(|x: Player| x == p).contains(q),
        s.contains(p) ==> s.filter(|x: Player| x == p).contains(p),
{
    let pred = |x: Player| x == p;
    broadcast use vstd::seq_lib::group_filter_ensures;

    if s.contains(p) {
        let i = choose|i: int| 0 <= i < s.len() && s[i] == p;
        assert(pred(s[i]));
    }
}

/// A set of players admits `p` exactly when it lists `p` somewhere, or when it
/// is a full table of four; a listed player is always admitted.
pub proof fn lemma_admits_listed(ps: Players, p: Player)
    ensures
        ps.members().contains(p) ==> ps.admits(p),
        ps is Four ==> ps.admits(p),
        !(ps is Four) && !ps.members().contains(p) ==> !ps.admits(p),
        forall|i: int| 0 <= i < ps.members().len() ==> ps.admits(#[trigger] ps.members()[i]),
{
    assert forall|i: int| 0 <= i < ps.members().len() implies ps.admits(
        #[trigger] ps.members()[i],
    ) by {
        assert(ps.members().contains(ps.members()[i]));
    }
}

/// The turn passes Vorhand, Player1, Player2, Geber, and back to Vorhand.
pub proof fn lemma_bidding_order(p: Player, q: Player)
    requires
        seat(q) == (seat(p) + 1) % 4,
    ensures
        p == Player::Vorhand ==> q == Player::Player1,
        p == Player::Player1 ==> q == Player::Player2,
        p == Player::Player2 ==> q == Player::Geber,
        p == Player::Geber ==> q == Player::Vorhand,
{
}

/// The other players of `p` are listed as Geber, Player1, Player2 with `p`'s
/// place, if any, taken by Vorhand.
pub proof fn lemma_others_listing(p: Player)
    ensures
        others_of(p).members() == seq![Player::Geber, Player::Player1, Player::Player2].map_values(
            |x: Player| if x == p { Player::Vorhand } else { x },
        ),
{
    let f = |x: Player| if x == p { Player::Vorhand } else { x };
    assert(others_of(p).members() =~= seq![Player::Geber, Player::Player1, Player::Player2].map_values(f));
}

} // verus!
