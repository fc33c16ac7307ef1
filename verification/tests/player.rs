use tictactoe::board::Piece;
use tictactoe::player::{next_player, piece_of, Player};

#[test]
fn two_player_mode_alternates_humans() {
    assert_eq!(next_player(Player::One, false), Player::Two);
    assert_eq!(next_player(Player::Two, false), Player::One);
}

#[test]
fn single_player_mode_alternates_with_computer() {
    assert_eq!(next_player(Player::One, true), Player::Cpu);
    assert_eq!(next_player(Player::Cpu, true), Player::One);
}

#[test]
fn turn_always_passes_to_someone_else() {
    assert_ne!(next_player(Player::One, false), Player::One);
    assert_ne!(next_player(Player::Two, false), Player::Two);
    assert_ne!(next_player(Player::One, true), Player::One);
    assert_ne!(next_player(Player::Cpu, true), Player::Cpu);
}

#[test]
fn first_human_plays_x_and_opponents_play_o() {
    assert_eq!(piece_of(Player::One), Piece::X);
    assert_eq!(piece_of(Player::Two), Piece::O);
    assert_eq!(piece_of(Player::Cpu), Piece::O);
}
