//! Requests to the game server's REST surface and how their answers are read.

use vstd::prelude::*;
use vstd::string::StringExecFns;

verus! {

/// Failure of an authenticated REST call.
#[derive(Debug, Clone, Copy, PartialEq, Eq, Structural)]
pub enum ApiError {
    /// The profile call refused the credential.
    Unauthorized,
    /// The server answered a move, resign or abort with this non-2xx status.
    Rejected(u16),
}

#[derive(Debug, Clone, Copy, PartialEq, Eq, Structural)]
pub enum HttpMethod {
    GET,
    POST,
    PUT,
    DELETE,
    PATCH,
    /// A GET whose body is read as a newline-delimited stream.
    STREAM,
}

/// A bearer-authenticated request for the transport layer to perform.
#[derive(Debug, Clone)]
pub struct ApiRequest {
    pub method: HttpMethod,
    pub url: String,
    pub bearer: String,
}

/// An HTTP status of the 2xx class.
pub open spec fn is_success(status: u16) -> bool {
    200 <= status && status <= 299
}

/// How a move, resign or abort call ended, from its HTTP status.
pub open spec fn action_result(status: u16) -> Result<(), ApiError> {
    if is_success(status) {
        Ok(())
    } else {
        Err(ApiError::Rejected(status))
    }
}

/// Whether a profile call with this HTTP status accepted the credential.
pub open spec fn profile_result(status: u16) -> Result<(), ApiError> {
    if is_success(status) {
        Ok(())
    } else {
        Err(ApiError::Unauthorized)
    }
}

pub open spec fn move_url(base: Seq<char>, game_id: Seq<char>, mv: Seq<char>) -> Seq<char> {
    base + "/board/game/"@ + game_id + "/move/"@ + mv
}

pub open spec fn resign_url(base: Seq<char>, game_id: Seq<char>) -> Seq<char> {
    base + "/board/game/"@ + game_id + "/resign"@
}

pub open spec fn abort_url(base: Seq<char>, game_id: Seq<char>) -> Seq<char> {
    base + "/board/game/"@ + game_id + "/abort"@
}

pub open spec fn game_stream_url(base: Seq<char>, game_id: Seq<char>) -> Seq<char> {
    base + "/board/game/stream/"@ + game_id
}

pub open spec fn event_stream_url(base: Seq<char>) -> Seq<char> {
    base + "/stream/event"@
}

pub open spec fn account_url(base: Seq<char>) -> Seq<char> {
    base + "/account"@
}

pub fn is_success_status(status: u16) -> (r: bool)
    ensures
        r == is_success(status),
{
    200 <= status && status <= 299
}

/// The outcome of a move, resign or abort call that answered with `status`.
pub fn action_outcome(status: u16) -> (r: Result<(), ApiError>)
    ensures
        r == action_result(status),
{
    if is_success_status(status) {
        Ok(())
    } else {
        Err(ApiError::Rejected(status))
    }
}

/// The outcome of a profile call that answered with `status`.
pub fn profile_outcome(status: u16) -> (r: Result<(), ApiError>)
    ensures
        r == profile_result(status),
{
    if is_success_status(status) {
        Ok(())
    } else {
        Err(ApiError::Unauthorized)
    }
}

/// A request of `method` on `url`, authenticated with the bearer `token`.
pub fn authenticated_request(url: String, token: &str, method: HttpMethod) -> (r: ApiRequest)
    ensures
        r.method == method,
        r.url@ == url@,
        r.bearer@ == token@,
{
    ApiRequest { method, url, bearer: String::from_str(token) }
}

pub fn game_move_url(base: &str, game_id: &str, mv: &str) -> (r: String)
    ensures
        r@ == move_url(base@, game_id@, mv@),
{
    let mut s = String::from_str(base);
    s.append("/board/game/");
    s.append(game_id);
    s.append("/move/");
    s.append(mv);
    s
}

pub fn game_resign_url(base: &str, game_id: &str) -> (r: String)
    ensures
        r@ == resign_url(base@, game_id@),
{
    let mut s = String::from_str(base);
    s.append("/board/game/");
    s.append(game_id);
    s.append("/resign");
    s
}

pub fn game_abort_url(base: &str, game_id: &str) -> (r: String)
    ensures
        r@ == abort_url(base@, game_id@),
{
    let mut s = String::from_str(base);
    s.append("/board/game/");
    s.append(game_id);
    s.append("/abort");
    s
}

pub fn game_feed_url(base: &str, game_id: &str) -> (r: String)
    ensures
        r@ == game_stream_url(base@, game_id@),
{
    let mut s = String::from_str(base);
    s.append("/board/game/stream/");
    s.append(game_id);
    s
}

pub fn event_feed_url(base: &str) -> (r: String)
    ensures
        r@ == event_stream_url(base@),
{
    let mut s = String::from_str(base);
    s.append("/stream/event");
    s
}

/// The profile request that `get_user_info` makes for `token`.
pub fn get_user_info(base: &str, token: &str) -> (r: ApiRequest)
    ensures
        r.method == HttpMethod::GET,
        r.url@ == account_url(base@),
        r.bearer@ == token@,
{
    let mut s = String::from_str(base);
    s.append("/account");
    authenticated_request(s, token, HttpMethod::GET)
}

} // verus!
