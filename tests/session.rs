use kindle_chess::api::{ApiError, HttpMethod};
use kindle_chess::models::{
    ChatLineEvent, Clock, GameFullEvent, GameStateEvent, GameStateStreamEvent, GameVariant,
    OpponentGoneEvent, PerfMode, PlayedBy, PlayedByAi, PlayedByPlayer, Speed,
};
use kindle_chess::oauth::{LichessUser, TokenInfo};
use kindle_chess::session::{Board, SessionAction, SessionPhase};
use kindle_chess::turn::player0_turn;

fn user(id: &str) -> LichessUser {
    LichessUser {
        id: id.to_string(),
        username: id.to_string(),
        perfs: None,
        created_at: None,
        disabled: None,
        tos_violation: None,
        profile: None,
        seen_at: None,
        patron: None,
        verified: None,
        play_time: None,
        title: None,
    }
}

fn token() -> TokenInfo {
    TokenInfo {
        access_token: "lio_abc".to_string(),
        token_type: "Bearer".to_string(),
        expires_in: Some(3600),
        scope: None,
    }
}

fn player(id: &str) -> PlayedBy {
    PlayedBy::User(PlayedByPlayer {
        id: id.to_string(),
        name: id.to_string(),
        title: None,
        rating: 1500,
    })
}

fn state(moves: &str, status: &str) -> GameStateEvent {
    GameStateEvent {
        moves: moves.to_string(),
        wtime: 60000,
        btime: 60000,
        winc: 0,
        binc: 0,
        wdraw: None,
        bdraw: None,
        wtakeback: None,
        btakeback: None,
        status: status.to_string(),
        winner: None,
    }
}

fn full(white: PlayedBy, black: PlayedBy, moves: &str) -> GameStateStreamEvent {
    GameStateStreamEvent::GameFull(GameFullEvent {
        variant: GameVariant { key: "standard".to_string(), name: "Standard".to_string(), short: None },
        speed: Speed::Correspondence,
        perf: PerfMode { name: "Correspondence".to_string() },
        rated: false,
        created_at: 0,
        white,
        black,
        initial_fen: "startpos".to_string(),
        clock: Some(Clock { initial: 60000, increment: 0 }),
        state: state(moves, "started"),
    })
}

fn board() -> Board {
    Board::new("g1".to_string(), token(), user("me"))
}

#[test]
fn turn_white_at_start() {
    assert!(player0_turn("", true));
}

#[test]
fn turn_white_after_one_move() {
    assert!(!player0_turn("e2e4", true));
}

#[test]
fn turn_black_after_two_moves() {
    assert!(!player0_turn("e2e4 e7e5", false));
}

#[test]
fn turn_counts_tokens_not_spaces() {
    assert!(player0_turn("  e2e4\te7e5  ", true));
    assert!(player0_turn("e2e4", false));
}

#[test]
fn game_full_as_white_with_no_moves_asks_for_a_move() {
    let mut b = board();
    let a = b.handle_game_event(full(player("me"), player("you"), ""));
    assert_eq!(a, SessionAction::RequestMove);
    assert!(b.player0_white);
    assert!(b.player0_turn);
    assert_eq!(b.phase, SessionPhase::Active);
}

#[test]
fn opponent_gone_ends_the_session_and_no_move_follows() {
    let mut b = board();
    b.handle_game_event(full(player("me"), player("you"), ""));
    let a = b.handle_game_event(GameStateStreamEvent::OpponentGone(OpponentGoneEvent {
        gone: true,
        claim_win_in_seconds: 10,
    }));
    assert_eq!(a, SessionAction::Finish);
    assert_eq!(b.phase, SessionPhase::Terminal);
    let a = b.handle_game_event(GameStateStreamEvent::GameState(state("e2e4 e7e5", "started")));
    assert_eq!(a, SessionAction::Finish);
    assert_ne!(a, SessionAction::RequestMove);
    assert_eq!(b.phase, SessionPhase::Terminal);
}

#[test]
fn engine_side_never_matches() {
    let mut b = board();
    let a = b.handle_game_event(full(PlayedBy::Ai(PlayedByAi { ai_level: Some(3) }), player("me"), ""));
    assert!(!b.player0_white);
    assert!(!b.player0_turn);
    assert_eq!(a, SessionAction::Wait);
}

#[test]
fn game_state_recomputes_turn() {
    let mut b = board();
    b.handle_game_event(full(player("you"), player("me"), ""));
    assert!(!b.player0_turn);
    let a = b.handle_game_event(GameStateStreamEvent::GameState(state("e2e4", "started")));
    assert_eq!(a, SessionAction::RequestMove);
    assert!(b.player0_turn);
}

#[test]
fn finished_status_ends_the_session() {
    let mut b = board();
    b.handle_game_event(full(player("me"), player("you"), ""));
    let a = b.handle_game_event(GameStateStreamEvent::GameState(state("e2e4 e7e5", "resign")));
    assert_eq!(a, SessionAction::Finish);
    assert_eq!(b.phase, SessionPhase::Terminal);
}

#[test]
fn game_state_before_game_full_recomputes_turn() {
    let mut b = board();
    let a = b.handle_game_event(GameStateStreamEvent::GameState(state("", "started")));
    assert_eq!(a, SessionAction::Wait);
    assert!(!b.player0_turn);
    let a = b.handle_game_event(GameStateStreamEvent::GameState(state("e2e4", "started")));
    assert_eq!(a, SessionAction::RequestMove);
    assert!(b.player0_turn);
    assert!(!b.player0_white);
    assert_eq!(b.phase, SessionPhase::Uninitialized);
}

#[test]
fn chat_line_changes_nothing() {
    let mut b = board();
    b.handle_game_event(full(player("me"), player("you"), ""));
    let a = b.handle_game_event(GameStateStreamEvent::ChatLine(ChatLineEvent {
        username: "you".to_string(),
        text: "hi".to_string(),
        room: "player".to_string(),
    }));
    assert_eq!(a, SessionAction::Wait);
    assert!(b.player0_turn);
}

#[test]
fn rejected_move_keeps_turn_and_asks_again() {
    let mut b = board();
    b.handle_game_event(full(player("me"), player("you"), ""));
    let (outcome, next) = b.move_response(400);
    assert_eq!(outcome, Err(ApiError::Rejected(400)));
    assert_eq!(next, SessionAction::RequestMove);
    assert!(b.player0_turn);
    assert_eq!(b.phase, SessionPhase::Active);
}

#[test]
fn accepted_move_goes_back_to_the_feed() {
    let mut b = board();
    b.handle_game_event(full(player("me"), player("you"), ""));
    let (outcome, next) = b.move_response(200);
    assert_eq!(outcome, Ok(()));
    assert_eq!(next, SessionAction::Wait);
}

#[test]
fn move_request_is_bearer_post() {
    let b = board();
    let r = b.move_piece("https://lichess.org/api", "g1", "e2e4");
    assert_eq!(r.method, HttpMethod::POST);
    assert_eq!(r.url, "https://lichess.org/api/board/game/g1/move/e2e4");
    assert_eq!(r.bearer, "lio_abc");
}

#[test]
fn resign_abort_and_feed_urls() {
    let b = board();
    assert_eq!(b.resign_game("B", "g1").url, "B/board/game/g1/resign");
    assert_eq!(b.abort_game("B", "g1").url, "B/board/game/g1/abort");
    let s = b.stream_game_event("B");
    assert_eq!(s.url, "B/board/game/stream/g1");
    assert_eq!(s.method, HttpMethod::STREAM);
    let e = b.stream_event("B");
    assert_eq!(e.url, "B/stream/event");
    assert_eq!(e.method, HttpMethod::GET);
}
