use tarock::bidding::{
    apply, get_possible_calls, CallA, CallB, CallKoenig, CallStateA, CallStateB, CallStateC,
};
use tarock::cards::Suit;
use tarock::players::{Player, Players};

fn state(s: CallStateA, caller: Option<Player>, active: Players, next: Player) -> CallStateC {
    CallStateC {
        state: CallStateB { state: s, caller, active },
        additions: vec![],
        nextPlayer: next,
    }
}

fn everybody() -> Players {
    Players::Four(Player::Vorhand, Player::Player1, Player::Player2, Player::Geber)
}

#[test]
fn rufer_with_king_offers_doubles() {
    let st = state(
        CallStateA::Rufer(Some(CallKoenig::Koenig(Suit::Karo))),
        Some(Player::Vorhand),
        Players::Three(Player::Geber, Player::Player1, Player::Player2),
        Player::Player1,
    );
    let pc = get_possible_calls(&st, Player::Player1);
    assert_eq!(
        pc,
        vec![
            CallB::Kontra(CallA::Rufer, Player::Vorhand),
            CallB::Kontra(CallA::Koenig(CallKoenig::Koenig(Suit::Karo)), Player::Vorhand),
        ]
    );
}

#[test]
fn no_calls_out_of_turn() {
    let st = state(CallStateA::Init, None, everybody(), Player::Vorhand);
    assert!(get_possible_calls(&st, Player::Player1).is_empty());
}

#[test]
fn no_calls_after_leaving() {
    let st = state(CallStateA::Init, None, Players::One(Player::Geber), Player::Vorhand);
    assert!(get_possible_calls(&st, Player::Vorhand).is_empty());
}

#[test]
fn opening_calls() {
    let st = state(CallStateA::Init, None, everybody(), Player::Vorhand);
    let pc = get_possible_calls(&st, Player::Vorhand);
    assert_eq!(pc.len(), 13);
    assert_eq!(pc[0], CallB::Call(CallA::MeinSpiel));
    assert_eq!(pc[12], CallB::Call(CallA::Solo));
}

#[test]
fn after_mein_spiel_forehand_and_others() {
    let st = state(CallStateA::MeinSpiel, Some(Player::Geber), everybody(), Player::Vorhand);
    let pc = get_possible_calls(&st, Player::Vorhand);
    assert_eq!(pc.len(), 14);
    assert_eq!(pc[1], CallB::Call(CallA::Trischaken));
    let st = state(CallStateA::MeinSpiel, Some(Player::Vorhand), everybody(), Player::Player1);
    let pc = get_possible_calls(&st, Player::Player1);
    assert_eq!(pc.len(), 11);
    assert_eq!(pc[0], CallB::Call(CallA::Piccolo));
}

#[test]
fn rufer_caller_names_a_king() {
    let st = state(CallStateA::Rufer(None), Some(Player::Player2), everybody(), Player::Player2);
    let pc = get_possible_calls(&st, Player::Player2);
    assert_eq!(
        pc,
        vec![
            CallB::Call(CallA::Koenig(CallKoenig::Koenig(Suit::Karo))),
            CallB::Call(CallA::Koenig(CallKoenig::Koenig(Suit::Herz))),
            CallB::Call(CallA::Koenig(CallKoenig::Koenig(Suit::Pik))),
            CallB::Call(CallA::Koenig(CallKoenig::Koenig(Suit::Treff))),
            CallB::Call(CallA::Koenig(CallKoenig::VierterKoenig)),
        ]
    );
}

#[test]
fn other_games_offer_nothing_yet() {
    let st = state(CallStateA::Dreier, Some(Player::Player2), everybody(), Player::Player2);
    assert!(get_possible_calls(&st, Player::Player2).is_empty());
}

#[test]
fn apply_mein_spiel() {
    let st = state(CallStateA::Init, None, everybody(), Player::Vorhand);
    let r = apply(st, CallB::Call(CallA::MeinSpiel), Player::Vorhand);
    assert_eq!(r.state.state, CallStateA::MeinSpiel);
    assert_eq!(r.state.caller, Some(Player::Vorhand));
    assert_eq!(r.state.active, Players::Three(Player::Geber, Player::Player1, Player::Player2));
    assert_eq!(r.nextPlayer, Player::Player1);
    assert!(get_possible_calls(&r, Player::Vorhand).is_empty());
    assert_eq!(get_possible_calls(&r, Player::Player1).len(), 11);
}

#[test]
fn apply_rufer_leaves_the_next_player_without_calls() {
    let st = state(CallStateA::Init, None, everybody(), Player::Geber);
    let r = apply(st, CallB::Call(CallA::Rufer), Player::Geber);
    assert_eq!(r.state.state, CallStateA::Rufer(None));
    assert_eq!(r.state.caller, Some(Player::Geber));
    assert_eq!(r.state.active, Players::Three(Player::Vorhand, Player::Player1, Player::Player2));
    assert_eq!(r.nextPlayer, Player::Vorhand);
    assert!(get_possible_calls(&r, Player::Vorhand).is_empty());
}

#[test]
fn apply_weiter_keeps_game_and_narrows_bidders() {
    let mut st = state(
        CallStateA::MeinSpiel,
        Some(Player::Vorhand),
        Players::Three(Player::Geber, Player::Player1, Player::Player2),
        Player::Player1,
    );
    st.additions = vec![];
    let r = apply(st, CallB::Call(CallA::Weiter), Player::Player1);
    assert_eq!(r.state.state, CallStateA::MeinSpiel);
    assert_eq!(r.state.caller, Some(Player::Vorhand));
    assert_eq!(r.state.active, Players::One(Player::Player1));
    assert_eq!(r.nextPlayer, Player::Player2);
    assert!(r.additions.is_empty());
}
