use vstd::prelude::*;
use crate::board::Piece;

verus! {

/// A turn-taking participant: one of two humans, or the placeholder
/// computer participant used in single-player mode.
#[derive(Debug, Clone, Copy, PartialEq, Eq, Structural)]
pub enum Player {
    One,
    Two,
    Cpu,
}

/// Which participants can take a turn under the given mode: the computer
/// participant exists only in single-player mode, the second human only
/// in two-player mode.
pub open spec fn valid_participant(p: Player, solo: bool) -> bool {
    match p {
        Player::One => true,
        Player::Two => !solo,
        Player::Cpu => solo,
    }
}

/// The turn order: in two-player mode the humans alternate; in
/// single-player mode the human alternates with the computer.
pub open spec fn spec_next_player(p: Player, solo: bool) -> Player {
    match p {
        Player::One => if solo {
            Player::Cpu
        } else {
            Player::Two
        },
        Player::Two => Player::One,
        Player::Cpu => Player::One,
    }
}

/// The marker a participant plays with: `X` for the first human,
/// `O` for the opponent.
pub open spec fn spec_piece_of(p: Player) -> Piece {
    if p == Player::One {
        Piece::X
    } else {
        Piece::O
    }
}

/// Advances the turn to the next participant.
pub fn next_player(current: Player, solo: bool) -> (next: Player)
    requires
        valid_participant(current, solo),
    ensures
        next == spec_next_player(current, solo),
        valid_participant(next, solo),
        next != current,
{
    match current {
        Player::One => if solo {
            Player::Cpu
        } else {
            Player::Two
        },
        Player::Two => Player::One,
        Player::Cpu => Player::One,
    }
}

/// The marker the given participant places.
pub fn piece_of(p: Player) -> (t: Piece)
    ensures
        t == spec_piece_of(p),
{
    match p {
        Player::One => Piece::X,
        Player::Two => Piece::O,
        Player::Cpu => Piece::O,
    }
}

} // verus!
