use kindle_chess::api::{get_user_info, ApiError, HttpMethod};
use kindle_chess::login::{
    after_token_load, after_validation, generate_qr_code, instructions_with_code,
    load_token, login_instructions, LoginStep, TokenError,
};
use kindle_chess::oauth::{
    root_handler, render_failure_page, AuthCallbackQuery, AuthConfig, AuthError, CallbackStep,
    LichessUser, OAuth2Client, TokenInfo, FAILURE_PAGE_HEAD, SUCCESS_PAGE,
};

const VERIFIER: &str = "abcdefghijklmnopqrstuvwxyzABCDEFGHIJKLMNOPQ";

fn config() -> AuthConfig {
    AuthConfig {
        client_id: "kc".to_string(),
        redirect_port: 8080,
        scopes: vec!["board:play".to_string(), "challenge:read".to_string()],
    }
}

fn client() -> OAuth2Client {
    OAuth2Client::new(config(), "192.168.1.5", "https://lichess.org/api").unwrap()
}

fn token(access: &str) -> TokenInfo {
    TokenInfo { access_token: access.to_string(), token_type: "Bearer".to_string(), expires_in: None, scope: None }
}

fn user() -> LichessUser {
    LichessUser {
        id: "me".to_string(),
        username: "Me".to_string(),
        perfs: None,
        created_at: None,
        disabled: None,
        tos_violation: None,
        profile: None,
        seen_at: None,
        patron: None,
        verified: None,
        play_time: None,
        title: None,
    }
}

fn query(code: Option<&str>, state: Option<&str>, error: Option<&str>) -> AuthCallbackQuery {
    AuthCallbackQuery {
        code: code.map(|s| s.to_string()),
        state: state.map(|s| s.to_string()),
        error: error.map(|s| s.to_string()),
        error_description: None,
    }
}

#[test]
fn client_endpoints() {
    let c = client();
    assert_eq!(c.redirect_url, "http://192.168.1.5:8080/callback");
    assert_eq!(c.auth_url, "https://lichess.org/oauth");
    assert_eq!(c.token_url, "https://lichess.org/api/token");
    assert_eq!(c.client_id, "kc");
    assert!(c.state.is_none());
}

#[test]
fn default_config() {
    let c = AuthConfig::default();
    assert!(c.client_id.starts_with("lichess-rust-client-"));
    assert_eq!(c.client_id.len(), 56);
    assert_eq!(c.redirect_port, 8080);
    assert_eq!(c.scopes, vec!["challenge:read", "challenge:write", "bot:play", "board:play"]);
    assert_ne!(AuthConfig::default().client_id, c.client_id);
}

#[test]
fn flow_url_carries_state_challenge_and_scopes() {
    let mut c = client();
    let st = c.begin_auth_flow("s1".to_string(), VERIFIER.to_string()).unwrap();
    assert!(st.auth_url.starts_with("https://lichess.org/oauth?response_type=code&client_id=kc&state=s1"));
    assert!(st.auth_url.contains("code_challenge_method=S256"));
    assert!(st.auth_url.contains("redirect_uri=http%3A%2F%2F192.168.1.5%3A8080%2Fcallback"));
    assert!(st.auth_url.contains("scope=board%3Aplay+challenge%3Aread"));
    assert!(!st.auth_url.contains(VERIFIER));
    assert_eq!(c.state.as_ref().unwrap().state, "s1");
}

#[test]
fn random_flow_is_pending() {
    let mut c = client();
    let st = c.start_auth_flow().unwrap();
    assert_eq!(st.state.len(), 22);
    assert_eq!(st.code_verifier.len(), 43);
    assert_eq!(c.state.as_ref().unwrap().auth_url, st.auth_url);
}

#[test]
fn invalid_redirect_host_is_refused() {
    let r = OAuth2Client::new(config(), "not a host", "https://lichess.org/api");
    assert_eq!(r.unwrap_err(), AuthError::InvalidEndpoint);
    let r = OAuth2Client::new(config(), "10.0.0.1", "no scheme");
    assert_eq!(r.unwrap_err(), AuthError::InvalidEndpoint);
}

#[test]
fn bad_endpoint_is_reported() {
    let mut c = client();
    c.auth_url = "not a url".to_string();
    assert_eq!(c.begin_auth_flow("s".to_string(), VERIFIER.to_string()).unwrap_err(), AuthError::InvalidEndpoint);
    assert!(c.state.is_none());
}

#[test]
fn foreign_state_is_csrf_mismatch() {
    let mut c = client();
    c.begin_auth_flow("s1".to_string(), VERIFIER.to_string()).unwrap();
    let r = c.exchange_code("valid-code".to_string(), "s2".to_string());
    assert_eq!(r.unwrap_err(), AuthError::CsrfMismatch);
    assert!(c.state.is_none());
}

#[test]
fn newer_flow_replaces_older() {
    let mut c = client();
    c.begin_auth_flow("old".to_string(), VERIFIER.to_string()).unwrap();
    c.begin_auth_flow("new".to_string(), VERIFIER.to_string()).unwrap();
    assert_eq!(c.exchange_code("x".to_string(), "old".to_string()).unwrap_err(), AuthError::CsrfMismatch);
}

#[test]
fn exchange_without_flow() {
    let mut c = client();
    assert_eq!(c.exchange_code("x".to_string(), "s".to_string()).unwrap_err(), AuthError::NoPendingFlow);
}

#[test]
fn matching_state_yields_request_then_token() {
    let mut c = client();
    c.begin_auth_flow("s1".to_string(), VERIFIER.to_string()).unwrap();
    let req = c.exchange_code("the-code".to_string(), "s1".to_string()).unwrap();
    assert_eq!(req.code, "the-code");
    assert_eq!(req.code_verifier, VERIFIER);
    assert!(c.state.is_some());
    assert_eq!(c.complete_exchange(None).unwrap_err(), AuthError::ExchangeFailed);
    assert!(c.state.is_some());
    let t = c.complete_exchange(Some(token("tok"))).unwrap();
    assert_eq!(t.access_token, "tok");
    assert!(c.state.is_none());
}

#[test]
fn callback_with_provider_error() {
    let mut c = client();
    let mut q = query(Some("c"), Some("s"), Some("access_denied"));
    q.error_description = Some("user said no".to_string());
    match c.handle_callback(q) {
        CallbackStep::Respond(p) => {
            assert_eq!(p.status, 400);
            assert_eq!(p.html, render_failure_page("Authorization failed: access_denied - user said no"));
            assert!(p.html.starts_with(FAILURE_PAGE_HEAD));
        }
        other => panic!("unexpected {:?}", other),
    }
}

#[test]
fn callback_without_code_or_state() {
    let mut c = client();
    match c.handle_callback(query(None, Some("s"), None)) {
        CallbackStep::Respond(p) => {
            assert_eq!(p.status, 400);
            assert!(p.html.contains("No authorization code received."));
        }
        other => panic!("unexpected {:?}", other),
    }
    match c.handle_callback(query(Some("c"), None, None)) {
        CallbackStep::Respond(p) => {
            assert_eq!(p.status, 400);
            assert!(p.html.contains("No state parameter received."));
        }
        other => panic!("unexpected {:?}", other),
    }
}

#[test]
fn callback_checks_state() {
    let mut c = client();
    c.begin_auth_flow("s1".to_string(), VERIFIER.to_string()).unwrap();
    match c.handle_callback(query(Some("c"), Some("evil"), None)) {
        CallbackStep::Respond(p) => {
            assert_eq!(p.status, 500);
            assert!(p.html.contains("Failed to exchange code: State mismatch - possible CSRF attack"));
        }
        other => panic!("unexpected {:?}", other),
    }
    c.begin_auth_flow("s1".to_string(), VERIFIER.to_string()).unwrap();
    match c.handle_callback(query(Some("c"), Some("s1"), None)) {
        CallbackStep::Exchange(req) => assert_eq!(req.code, "c"),
        other => panic!("unexpected {:?}", other),
    }
    let (r, page) = c.exchange_response(Some(token("t")));
    assert_eq!(r.unwrap().access_token, "t");
    assert_eq!(page.status, 200);
    assert_eq!(page.html, SUCCESS_PAGE);
}

#[test]
fn failed_exchange_page() {
    let mut c = client();
    let (r, page) = c.exchange_response(None);
    assert_eq!(r.unwrap_err(), AuthError::ExchangeFailed);
    assert_eq!(page.status, 500);
    assert!(page.html.contains("Failed to exchange code: Token exchange failed"));
}

#[test]
fn root_page_waits() {
    assert!(root_handler().contains("Waiting for OAuth callback..."));
}

#[test]
fn grant_scopes_are_space_joined() {
    let t = TokenInfo::from_grant(
        "a".to_string(),
        "Bearer".to_string(),
        Some(3600),
        Some(vec!["board:play".to_string(), "challenge:read".to_string()]),
    );
    assert_eq!(t.scope.as_deref(), Some("board:play challenge:read"));
    assert_eq!(t.expires_in, Some(3600));
    let t = TokenInfo::from_grant("a".to_string(), "Bearer".to_string(), None, None);
    assert_eq!(t.scope, None);
    assert_eq!(t.expires_in, None);
}

#[test]
fn stored_token_policy() {
    assert_eq!(load_token(false, Some(token("x"))).unwrap_err(), TokenError::NotFound);
    assert_eq!(load_token(true, None).unwrap_err(), TokenError::Corrupt);
    assert_eq!(load_token(true, Some(token("x"))).unwrap().access_token, "x");
    assert!(matches!(after_token_load(Err(TokenError::Corrupt)), LoginStep::Interactive));
    assert!(matches!(after_token_load(Ok(token("x"))), LoginStep::Validate(_)));
    assert!(matches!(after_validation(token("x"), 401, None), LoginStep::Interactive));
    assert!(matches!(after_validation(token("x"), 200, None), LoginStep::Interactive));
    match after_validation(token("x"), 200, Some(user())) {
        LoginStep::Done(t, u) => {
            assert_eq!(t.access_token, "x");
            assert_eq!(u.id, "me");
        }
        other => panic!("unexpected {:?}", other),
    }
}

#[test]
fn profile_request() {
    let r = get_user_info("B", "tok");
    assert_eq!(r.url, "B/account");
    assert_eq!(r.method, HttpMethod::GET);
    assert_eq!(r.bearer, "tok");
    assert_eq!(kindle_chess::api::profile_outcome(401), Err(ApiError::Unauthorized));
    assert_eq!(kindle_chess::api::action_outcome(204), Ok(()));
    assert_eq!(kindle_chess::api::action_outcome(400), Err(ApiError::Rejected(400)));
}

#[test]
fn qr_code_renders_blocks() {
    let qr = generate_qr_code("https://lichess.org/oauth?state=x").unwrap();
    assert!(qr.lines().count() > 10);
    assert!(qr.contains('█') || qr.contains('▀') || qr.contains('▄'));
    assert!(generate_qr_code(&"x".repeat(8000)).is_none());
}

#[test]
fn login_instruction_lines() {
    let lines = instructions_with_code("U", None);
    assert_eq!(lines, vec!["Please visit the following URL to authenticate:", "U", "Could not generate QR code"]);
    let lines = instructions_with_code("U", Some("Q".to_string()));
    assert_eq!(lines[2], "Or scan this QR code with your mobile device:");
    assert_eq!(lines[3], "Q");
    let mut c = client();
    let st = c.begin_auth_flow("s1".to_string(), VERIFIER.to_string()).unwrap();
    let lines = login_instructions(&st);
    assert_eq!(lines.len(), 4);
    assert_eq!(lines[1], st.auth_url);
}
