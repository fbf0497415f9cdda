//! Records exchanged with the game server: the account-level event feed, the
//! per-game feed, and the puzzle and game summaries.

use vstd::prelude::*;

verus! {

// ---------------------------------------------------------------- account feed

/// One record of the account-level event feed.
#[derive(Debug, Clone)]
pub enum StreamEvent {
    GameStart(GameStartEvent),
    GameFinish(GameFinishEvent),
    Challenge(ChallengeEvent),
    ChallengeDeclined(ChallengeDeclinedEvent),
}

/// A game of the account has started.
#[derive(Debug, Clone)]
pub struct GameStartEvent {
    pub full_id: String,
    pub game_id: String,
    pub fen: String,
    pub color: String,
    pub last_move: String,
    pub source: String,
    pub status: GameStatus,
    pub variant: GameVariant,
    pub speed: String,
    pub perf: String,
    pub rated: bool,
    pub has_moved: bool,
    pub opponent: Opponent,
    pub is_my_turn: bool,
    pub seconds_left: Option<u64>,
    pub compat: Compat,
    pub id: String,
}

/// A game of the account has finished.
#[derive(Debug, Clone)]
pub struct GameFinishEvent {
    pub full_id: String,
    pub game_id: String,
    pub fen: String,
    pub color: String,
    pub last_move: String,
    pub source: String,
    pub status: GameStatus,
    pub variant: GameVariant,
    pub speed: String,
    pub perf: String,
    pub rated: bool,
    pub has_moved: bool,
    pub opponent: Opponent,
    pub is_my_turn: bool,
    pub seconds_left: Option<u64>,
    pub winner: Option<String>,
    pub rating_diff: Option<i16>,
    pub compat: Compat,
    pub id: String,
}

/// A challenge was issued to or by the account.
#[derive(Debug, Clone)]
pub struct ChallengeEvent {
    pub id: String,
    pub url: String,
    pub status: String,
    pub challenger: Player,
    pub dest_user: Player,
    pub variant: GameVariant,
    pub rated: bool,
    pub speed: String,
    pub time_control: TimeControl,
    pub color: String,
    pub final_color: String,
    pub perf: PerfCallenge,
    pub compat: Compat,
}

/// A challenge was declined.
#[derive(Debug, Clone)]
pub struct ChallengeDeclinedEvent {
    pub id: String,
    pub url: String,
    pub status: String,
    pub challenger: Player,
    pub dest_user: Player,
    pub variant: GameVariant,
    pub rated: bool,
    pub speed: String,
    pub time_control: TimeControl,
    pub color: String,
    pub final_color: String,
    pub perf: PerfCallenge,
    pub compat: Compat,
    pub decline_reason: String,
    pub decline_reason_key: String,
}

#[derive(Debug, Clone)]
pub struct GameStatus {
    pub id: u16,
    pub name: String,
}

#[derive(Debug, Clone)]
pub struct Opponent {
    pub id: String,
    pub username: String,
    pub rating: u64,
}

#[derive(Debug, Clone)]
pub struct Compat {
    pub bot: bool,
    pub board: bool,
}

#[derive(Debug, Clone)]
pub struct TimeControl {
    pub tc_type: String,
}

#[derive(Debug, Clone)]
pub struct PerfCallenge {
    pub icon: String,
    pub name: String,
}

// ------------------------------------------------------------------- game feed

/// One record of the per-game event feed.
#[derive(Debug, Clone)]
pub enum GameStateStreamEvent {
    GameFull(GameFullEvent),
    GameState(GameStateEvent),
    ChatLine(ChatLineEvent),
    OpponentGone(OpponentGoneEvent),
}

/// First record of a game feed: who plays which side, and the current state.
#[derive(Debug, Clone)]
pub struct GameFullEvent {
    pub variant: GameVariant,
    pub speed: Speed,
    pub perf: PerfMode,
    pub rated: bool,
    pub created_at: u64,
    pub white: PlayedBy,
    pub black: PlayedBy,
    pub initial_fen: String,
    pub clock: Option<Clock>,
    pub state: GameStateEvent,
}

/// The moves played so far (space separated, UCI notation) and the clocks.
#[derive(Debug, Clone)]
pub struct GameStateEvent {
    pub moves: String,
    pub wtime: u64,
    pub btime: u64,
    pub winc: u64,
    pub binc: u64,
    pub wdraw: Option<bool>,
    pub bdraw: Option<bool>,
    pub wtakeback: Option<bool>,
    pub btakeback: Option<bool>,
    pub status: String,
    pub winner: Option<String>,
}

#[derive(Debug, Clone)]
pub struct ChatLineEvent {
    pub username: String,
    pub text: String,
    pub room: String,
}

#[derive(Debug, Clone)]
pub struct OpponentGoneEvent {
    pub gone: bool,
    pub claim_win_in_seconds: u64,
}

#[derive(Debug, Clone)]
pub struct GameVariant {
    pub key: String,
    pub name: String,
    pub short: Option<String>,
}

#[derive(Debug, Clone)]
pub struct PerfMode {
    pub name: String,
}

#[derive(Debug, Clone)]
pub struct Clock {
    pub initial: u64,
    pub increment: u64,
}

/// Who controls one side of a game: an account, or the server's engine.
#[derive(Debug, Clone)]
pub enum PlayedBy {
    User(PlayedByPlayer),
    Ai(PlayedByAi),
}

#[derive(Debug, Clone)]
pub struct PlayedByPlayer {
    pub id: String,
    pub name: String,
    pub title: Option<String>,
    pub rating: u64,
}

#[derive(Debug, Clone)]
pub struct PlayedByAi {
    pub ai_level: Option<u8>,
}

#[derive(Debug, Clone)]
pub struct Performance {
    pub key: String,
    pub name: String,
}

#[derive(Debug, Clone, Copy, PartialEq, Eq)]
pub enum Speed {
    UltraBullet,
    Bullet,
    Blitz,
    Rapid,
    Classical,
    Correspondence,
}

// ------------------------------------------------------------ puzzles and games

/// A finished game as the puzzle endpoint describes it.
#[derive(Debug, Clone)]
pub struct Game {
    pub id: String,
    pub perf: Performance,
    pub rated: bool,
    pub players: Vec<Player>,
    pub pgn: String,
    pub clock: String,
}

#[derive(Debug, Clone)]
pub struct Player {
    pub name: String,
    pub id: String,
    pub color: String,
    pub rating: i32,
    pub flare: Option<String>,
    pub online: Option<bool>,
}

#[derive(Debug, Clone)]
pub struct Puzzle {
    pub id: String,
    pub rating: i32,
    pub plays: i32,
    pub solution: Vec<String>,
    pub themes: Vec<String>,
    pub initial_play: i32,
}

#[derive(Debug, Clone)]
pub struct DailyPuzzle {
    pub game: Game,
    pub puzzle: Puzzle,
}

} // verus!
