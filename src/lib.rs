//! Client-side logic for playing a correspondence chess game against a remote
//! server: OAuth2 (PKCE) login bookkeeping, newline-delimited event framing,
//! the per-game session state machine and the touch-screen widgets.

pub mod api;
pub mod chess;
pub mod display;
pub mod draw;
pub mod interaction;
pub mod login;
pub mod models;
pub mod oauth;
pub mod session;
pub mod stream;
pub mod text;
pub mod turn;
pub mod ui;
