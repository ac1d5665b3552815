use tarock::players::{is_in_active, next_player, other_players, without_player, Player, Players};

#[test]
fn next_player_goes_round_the_table() {
    assert_eq!(next_player(Player::Vorhand), Player::Player1);
    assert_eq!(next_player(Player::Player1), Player::Player2);
    assert_eq!(next_player(Player::Player2), Player::Geber);
    assert_eq!(next_player(Player::Geber), Player::Vorhand);
}

#[test]
fn four_turns_come_back() {
    for p in [Player::Vorhand, Player::Player1, Player::Player2, Player::Geber] {
        let q1 = next_player(p);
        let q2 = next_player(q1);
        let q3 = next_player(q2);
        assert_ne!(q1, p);
        assert_ne!(q2, p);
        assert_ne!(q3, p);
        assert_eq!(next_player(q3), p);
    }
}

#[test]
fn other_players_lists_the_rest() {
    assert_eq!(
        other_players(Player::Geber),
        Players::Three(Player::Vorhand, Player::Player1, Player::Player2)
    );
    assert_eq!(
        other_players(Player::Player1),
        Players::Three(Player::Geber, Player::Vorhand, Player::Player2)
    );
    assert_eq!(
        other_players(Player::Player2),
        Players::Three(Player::Geber, Player::Player1, Player::Vorhand)
    );
    assert_eq!(
        other_players(Player::Vorhand),
        Players::Three(Player::Geber, Player::Player1, Player::Player2)
    );
}

#[test]
fn others_admit_everybody_but_the_player() {
    let all = [Player::Vorhand, Player::Player1, Player::Player2, Player::Geber];
    for p in all {
        for q in all {
            assert_eq!(is_in_active(other_players(p), q), q != p);
        }
    }
}

#[test]
fn is_in_active_cases() {
    assert!(!is_in_active(Players::Nobody, Player::Geber));
    assert!(is_in_active(Players::One(Player::Geber), Player::Geber));
    assert!(!is_in_active(Players::One(Player::Geber), Player::Vorhand));
    assert!(is_in_active(Players::Two(Player::Geber, Player::Player1), Player::Player1));
    assert!(!is_in_active(Players::Two(Player::Geber, Player::Player1), Player::Player2));
    assert!(is_in_active(
        Players::Three(Player::Geber, Player::Player1, Player::Player2),
        Player::Player2
    ));
    assert!(!is_in_active(
        Players::Three(Player::Geber, Player::Player1, Player::Player2),
        Player::Vorhand
    ));
    // A full table stands for everybody, whoever it lists.
    assert!(is_in_active(
        Players::Four(Player::Geber, Player::Geber, Player::Geber, Player::Geber),
        Player::Vorhand
    ));
}

#[test]
fn without_player_keeps_only_mentions_of_the_player() {
    assert_eq!(without_player(Players::Nobody, Player::Geber), Players::Nobody);
    assert_eq!(
        without_player(Players::Three(Player::Geber, Player::Player1, Player::Player2), Player::Player1),
        Players::One(Player::Player1)
    );
    assert_eq!(
        without_player(Players::Three(Player::Geber, Player::Player1, Player::Geber), Player::Geber),
        Players::Two(Player::Geber, Player::Geber)
    );
    assert_eq!(
        without_player(Players::Two(Player::Geber, Player::Player1), Player::Vorhand),
        Players::Nobody
    );
    assert_eq!(
        without_player(
            Players::Four(Player::Vorhand, Player::Vorhand, Player::Vorhand, Player::Vorhand),
            Player::Vorhand
        ),
        Players::Four(Player::Vorhand, Player::Vorhand, Player::Vorhand, Player::Vorhand)
    );
    assert_eq!(
        without_player(
            Players::Four(Player::Vorhand, Player::Player1, Player::Player2, Player::Geber),
            Player::Player2
        ),
        Players::One(Player::Player2)
    );
}
