//! A game as the application holds it: against the server, or on the device
//! alone.

use vstd::prelude::*;
use crate::oauth::{LichessUser, TokenInfo};
use crate::session::{Board, SessionPhase};

verus! {

/// A game played on the device alone. The local player starts, as white.
#[derive(Debug)]
pub struct BoardLocal {
    pub game_id: String,
    pub player0_turn: bool,
    pub player0_white: bool,
}

impl BoardLocal {
    pub fn new(game_id: String) -> (r: BoardLocal)
        ensures
            r.game_id == game_id,
            r.player0_turn,
            r.player0_white,
    {
        BoardLocal { game_id, player0_turn: true, player0_white: true }
    }
}

/// Where the moves of a game go.
#[derive(Debug)]
pub enum ChessBackend {
    Offline(BoardLocal),
    Online(Board),
}

#[derive(Debug)]
pub struct Chess {
    pub backend: ChessBackend,
}

impl Chess {
    /// A game `game_id`: online, as a fresh session, when a logged-in
    /// `account` (credential and profile) is given; on the device otherwise.
    pub fn new(game_id: String, account: Option<(TokenInfo, LichessUser)>) -> (r: Chess)
        ensures
            match account {
                Some((t, u)) => r.backend matches ChessBackend::Online(b) && b.game_id == game_id
                    && b.token == t && b.user == u && b.phase == SessionPhase::Uninitialized
                    && b.white is None && b.black is None && !b.player0_turn,
                None => r.backend matches ChessBackend::Offline(l) && l.game_id == game_id
                    && l.player0_turn && l.player0_white,
            },
    {
        let backend = match account {
            Some((token, user)) => ChessBackend::Online(Board::new(game_id, token, user)),
            None => ChessBackend::Offline(BoardLocal::new(game_id)),
        };
        Chess { backend }
    }
}

} // verus!
