//! Whose move it is, from the move list and the local player's colour.

use vstd::prelude::*;
use crate::text::{count_tokens, token_count};

verus! {

/// White moves when an even number of moves has been played.
pub open spec fn white_to_move(moves: Seq<char>) -> bool {
    token_count(moves) % 2 == 0
}

/// It is the local player's turn when the side to move is the local side.
pub open spec fn local_turn(moves: Seq<char>, local_is_white: bool) -> bool {
    white_to_move(moves) == local_is_white
}

/// Whether the local player (white when `player0_white`) is to move after the
/// space-separated move list `moves`.
pub fn player0_turn(moves: &str, player0_white: bool) -> (r: bool)
    ensures
        r == local_turn(moves@, player0_white),
{
    let white_turn = count_tokens(moves) % 2 == 0;
    if player0_white {
        white_turn
    } else {
        !white_turn
    }
}

} // verus!
