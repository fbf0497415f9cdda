//! The session of one game: which side the local account plays, whose turn it
//! is, and what the driving loop must do after each record of the game feed.

use vstd::prelude::*;
use crate::api::{
    abort_url, action_outcome, action_result, authenticated_request, event_feed_url,
    event_stream_url, game_abort_url, game_feed_url, game_move_url, game_resign_url,
    game_stream_url, is_success, move_url, resign_url, ApiError, ApiRequest, HttpMethod,
};
use crate::models::{GameStateStreamEvent, PlayedBy, StreamEvent};
use crate::oauth::{LichessUser, TokenInfo};
use vstd::string::StringExecFns;
use crate::turn::{local_turn, player0_turn};

verus! {

/// Lifecycle of a session.
#[derive(Debug, Clone, Copy, PartialEq, Eq, Structural)]
pub enum SessionPhase {
    /// No `GameFull` record has been seen yet.
    Uninitialized,
    /// The game is running.
    Active,
    /// The opponent left or the game ended: no move is attempted any more.
    Terminal,
}

/// What the loop that drives a session must do next.
#[derive(Debug, Clone, Copy, PartialEq, Eq, Structural)]
pub enum SessionAction {
    /// Keep reading the game feed.
    Wait,
    /// Obtain a move from the player and submit it.
    RequestMove,
    /// Stop: the session is over.
    Finish,
}

/// Game statuses under which play goes on; every other status ends the game.
pub open spec fn is_running_status(status: Seq<char>) -> bool {
    status == "created"@ || status == "started"@
}

/// Whether `side` is the account with id `id`; an engine never is.
pub open spec fn played_by(side: PlayedBy, id: Seq<char>) -> bool {
    match side {
        PlayedBy::User(p) => p.id@ == id,
        PlayedBy::Ai(_) => false,
    }
}

/// The action that follows a state in which the session is in `phase`, with
/// `turn` telling whether the local player is to move.
pub open spec fn action_for(phase: SessionPhase, turn: bool) -> SessionAction {
    if phase == SessionPhase::Terminal {
        SessionAction::Finish
    } else if turn {
        SessionAction::RequestMove
    } else {
        SessionAction::Wait
    }
}

/// The phase that a record with game status `status` leaves a running
/// session in.
pub open spec fn phase_after(status: Seq<char>) -> SessionPhase {
    if is_running_status(status) {
        SessionPhase::Active
    } else {
        SessionPhase::Terminal
    }
}

/// The session after record `e`. A terminal session never changes. A
/// `GameFull` record fixes the local side (white when the white player is the
/// local account), the turn, and both players, and makes the session active.
/// A `GameState` record recomputes the turn from its move list and the local
/// side as it stands (black until a `GameFull` says otherwise); it leaves the
/// phase as it is. Either record ends the session when its status is not a
/// running one. `OpponentGone` ends the session; chat lines
/// change nothing.
pub open spec fn apply_event(b: Board, e: GameStateStreamEvent) -> Board {
    if b.phase == SessionPhase::Terminal {
        b
    } else {
        match e {
            GameStateStreamEvent::GameFull(full) => {
                let white = played_by(full.white, b.user.id@);
                Board {
                    white: Some(full.white),
                    black: Some(full.black),
                    player0_white: white,
                    player0_turn: local_turn(full.state.moves@, white),
                    phase: phase_after(full.state.status@),
                    ..b
                }
            },
            GameStateStreamEvent::GameState(state) => Board {
                player0_turn: local_turn(state.moves@, b.player0_white),
                phase: if is_running_status(state.status@) {
                    b.phase
                } else {
                    SessionPhase::Terminal
                },
                ..b
            },
            GameStateStreamEvent::ChatLine(_) => b,
            GameStateStreamEvent::OpponentGone(_) => Board { phase: SessionPhase::Terminal, ..b },
        }
    }
}

/// What the loop does after record `e` reached session `b`: `Finish` once the
/// session is terminal, `RequestMove` when the record leaves the local player
/// to move, and `Wait` otherwise (chat lines included).
pub open spec fn event_action(b: Board, e: GameStateStreamEvent) -> SessionAction {
    let a = apply_event(b, e);
    if b.phase == SessionPhase::Terminal {
        SessionAction::Finish
    } else {
        match e {
            GameStateStreamEvent::ChatLine(_) => SessionAction::Wait,
            _ => action_for(a.phase, a.player0_turn),
        }
    }
}

/// Once a session is terminal, no record changes it, and no record leads to
/// a move being asked for: the loop is told to finish.
pub proof fn law_terminal_session_is_final(b: Board, e: GameStateStreamEvent)
    requires
        b.phase == SessionPhase::Terminal,
    ensures
        apply_event(b, e) == b,
        event_action(b, e) == SessionAction::Finish,
{
}

/// The turn is a function of the moves and the local side: after any
/// `GameFull` or `GameState` record that reaches a session that is not
/// terminal, it is what the record's move list and the local side give; no
/// other record changes it.
pub proof fn law_turn_follows_moves(b: Board, e: GameStateStreamEvent)
    ensures
        b.phase != SessionPhase::Terminal ==> match e {
            GameStateStreamEvent::GameFull(full) => apply_event(b, e).player0_turn == local_turn(
                full.state.moves@,
                apply_event(b, e).player0_white,
            ),
            GameStateStreamEvent::GameState(state) => apply_event(b, e).player0_turn == local_turn(
                state.moves@,
                apply_event(b, e).player0_white,
            ) && apply_event(b, e).player0_white == b.player0_white,
            _ => apply_event(b, e).player0_turn == b.player0_turn,
        },
{
}

/// A move is only asked for while the session is not terminal and the local
/// player is to move.
pub proof fn law_move_requested_only_on_local_turn(b: Board, e: GameStateStreamEvent)
    ensures
        event_action(b, e) == SessionAction::RequestMove ==> apply_event(b, e).phase
            != SessionPhase::Terminal && apply_event(b, e).player0_turn,
{
}

/// The session of one game, owned by the loop that reads its feed.
#[derive(Debug)]
pub struct Board {
    pub token: TokenInfo,
    /// The local account.
    pub user: LichessUser,
    pub bitboard: Vec<u64>,
    pub game_id: String,
    pub white: Option<PlayedBy>,
    pub black: Option<PlayedBy>,
    /// The local account plays white.
    pub player0_white: bool,
    /// It is the local account's turn.
    pub player0_turn: bool,
    pub phase: SessionPhase,
}

fn running_status(status: &String) -> (r: bool)
    ensures
        r == is_running_status(status@),
{
    *status == String::from_str("created") || *status == String::from_str("started")
}

fn plays_side(side: &PlayedBy, id: &String) -> (r: bool)
    ensures
        r == played_by(*side, id@),
{
    match side {
        PlayedBy::User(p) => p.id == *id,
        PlayedBy::Ai(_) => false,
    }
}

impl Board {
    /// A session for `game_id`, played by `user` with credential `token`,
    /// before the first record of its feed.
    pub fn new(game_id: String, token: TokenInfo, user: LichessUser) -> (r: Board)
        ensures
            r.game_id == game_id,
            r.token == token,
            r.user == user,
            r.bitboard@ == Seq::<u64>::empty(),
            r.white is None,
            r.black is None,
            !r.player0_white,
            !r.player0_turn,
            r.phase == SessionPhase::Uninitialized,
    {
        Board {
            token,
            user,
            bitboard: Vec::new(),
            game_id,
            white: None,
            black: None,
            player0_white: false,
            player0_turn: false,
            phase: SessionPhase::Uninitialized,
        }
    }

    /// Applies one record of the game feed and says what the loop does next;
    /// see [`apply_event`] and [`event_action`].
    pub fn handle_game_event(&mut self, event: GameStateStreamEvent) -> (action: SessionAction)
        ensures
            *final(self) == apply_event(*old(self), event),
            action == event_action(*old(self), event),
    {
        if self.phase == SessionPhase::Terminal {
            return SessionAction::Finish;
        }
        match event {
            GameStateStreamEvent::GameFull(full) => {
                let white = plays_side(&full.white, &self.user.id);
                let turn = player0_turn(full.state.moves.as_str(), white);
                let running = running_status(&full.state.status);
                self.player0_white = white;
                self.player0_turn = turn;
                self.white = Some(full.white);
                self.black = Some(full.black);
                self.phase = if running {
                    SessionPhase::Active
                } else {
                    SessionPhase::Terminal
                };
                self.next_action()
            },
            GameStateStreamEvent::GameState(state) => {
                self.player0_turn = player0_turn(state.moves.as_str(), self.player0_white);
                if !running_status(&state.status) {
                    self.phase = SessionPhase::Terminal;
                }
                self.next_action()
            },
            GameStateStreamEvent::ChatLine(_) => SessionAction::Wait,
            GameStateStreamEvent::OpponentGone(_) => {
                self.phase = SessionPhase::Terminal;
                SessionAction::Finish
            },
        }
    }

    /// The request that submits `board_move` in game `game_id`.
    pub fn move_piece(&self, api_base: &str, game_id: &str, board_move: &str) -> (r: ApiRequest)
        ensures
            r.method == HttpMethod::POST,
            r.url@ == move_url(api_base@, game_id@, board_move@),
            r.bearer@ == self.token.access_token@,
    {
        let url = game_move_url(api_base, game_id, board_move);
        authenticated_request(url, self.token.access_token.as_str(), HttpMethod::POST)
    }

    /// The request that resigns game `game_id`.
    pub fn resign_game(&self, api_base: &str, game_id: &str) -> (r: ApiRequest)
        ensures
            r.method == HttpMethod::POST,
            r.url@ == resign_url(api_base@, game_id@),
            r.bearer@ == self.token.access_token@,
    {
        let url = game_resign_url(api_base, game_id);
        authenticated_request(url, self.token.access_token.as_str(), HttpMethod::POST)
    }

    /// The request that aborts game `game_id`.
    pub fn abort_game(&self, api_base: &str, game_id: &str) -> (r: ApiRequest)
        ensures
            r.method == HttpMethod::POST,
            r.url@ == abort_url(api_base@, game_id@),
            r.bearer@ == self.token.access_token@,
    {
        let url = game_abort_url(api_base, game_id);
        authenticated_request(url, self.token.access_token.as_str(), HttpMethod::POST)
    }

    /// The request that opens the feed of this session's game.
    pub fn stream_game_event(&self, api_base: &str) -> (r: ApiRequest)
        ensures
            r.method == HttpMethod::STREAM,
            r.url@ == game_stream_url(api_base@, self.game_id@),
            r.bearer@ == self.token.access_token@,
    {
        let url = game_feed_url(api_base, self.game_id.as_str());
        authenticated_request(url, self.token.access_token.as_str(), HttpMethod::STREAM)
    }

    /// The request that opens the account-level feed.
    pub fn stream_event(&self, api_base: &str) -> (r: ApiRequest)
        ensures
            r.method == HttpMethod::GET,
            r.url@ == event_stream_url(api_base@),
            r.bearer@ == self.token.access_token@,
    {
        let url = event_feed_url(api_base);
        authenticated_request(url, self.token.access_token.as_str(), HttpMethod::GET)
    }

    /// Reads the answer to a move submission. The session is left as it is
    /// (it takes `&self`): a rejection is reported as `Rejected(status)` and
    /// the move is asked for again while it is still the local turn; an
    /// accepted move sends the loop back to the feed.
    pub fn move_response(&self, status: u16) -> (r: (Result<(), ApiError>, SessionAction))
        ensures
            r.0 == action_result(status),
            r.1 == if is_success(status) {
                SessionAction::Wait
            } else {
                action_for(self.phase, self.player0_turn)
            },
    {
        let outcome = action_outcome(status);
        let next = match outcome {
            Ok(()) => SessionAction::Wait,
            Err(_) => self.next_action(),
        };
        (outcome, next)
    }

    /// Reads a record of the account-level feed: a started game names the
    /// game that a session can be opened for; other records name none.
    pub fn handle_event(&self, event: &StreamEvent) -> (r: Option<String>)
        ensures
            match *event {
                StreamEvent::GameStart(g) => r matches Some(id) && id == g.game_id,
                _ => r is None,
            },
    {
        match event {
            StreamEvent::GameStart(g) => Some(g.game_id.clone()),
            _ => None,
        }
    }

    /// What the loop does next in the current state.
    pub fn next_action(&self) -> (action: SessionAction)
        ensures
            action == action_for(self.phase, self.player0_turn),
    {
        if self.phase == SessionPhase::Terminal {
            SessionAction::Finish
        } else if self.player0_turn {
            SessionAction::RequestMove
        } else {
            SessionAction::Wait
        }
    }
}

} // verus!
