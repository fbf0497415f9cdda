//! OAuth2 authorization-code login with PKCE: the client's configuration, the
//! single pending flow, the CSRF check on the redirect, and the credential
//! record that a successful exchange yields.

use vstd::prelude::*;
use vstd::string::StringExecFns;
use crate::text::{decimal, join_with_spaces, joined, push_decimal};

verus! {

/// A JSON value carried through unchanged (profile statistics).
#[verifier::external_type_specification]
#[verifier::external_body]
pub struct ExJsonValue(serde_json::Value);

/// The authenticated account, as the profile endpoint returns it.
#[derive(Debug, Clone)]
pub struct LichessUser {
    pub id: String,
    pub username: String,
    pub perfs: Option<serde_json::Value>,
    pub created_at: Option<i64>,
    pub disabled: Option<bool>,
    pub tos_violation: Option<bool>,
    pub profile: Option<UserProfile>,
    pub seen_at: Option<i64>,
    pub patron: Option<bool>,
    pub verified: Option<bool>,
    pub play_time: Option<serde_json::Value>,
    pub title: Option<String>,
}

#[derive(Debug, Clone)]
pub struct UserProfile {
    pub country: Option<String>,
    pub location: Option<String>,
    pub bio: Option<String>,
    pub first_name: Option<String>,
    pub last_name: Option<String>,
    pub links: Option<String>,
}

/// The credential that a code exchange yields and that is kept on disk.
#[derive(Debug)]
pub struct TokenInfo {
    pub access_token: String,
    pub token_type: String,
    pub expires_in: Option<i64>,
    pub scope: Option<String>,
}

impl Clone for TokenInfo {
    fn clone(&self) -> (r: TokenInfo)
        ensures
            r == *self,
    {
        TokenInfo {
            access_token: self.access_token.clone(),
            token_type: self.token_type.clone(),
            expires_in: self.expires_in,
            scope: match &self.scope {
                Some(s) => Some(s.clone()),
                None => None,
            },
        }
    }
}

impl TokenInfo {
    /// The record for a token response: its access token and type, its
    /// lifetime in whole seconds, and its scopes joined by single spaces.
    pub fn from_grant(
        access_token: String,
        token_type: String,
        expires_secs: Option<u64>,
        scopes: Option<Vec<String>>,
    ) -> (r: TokenInfo)
        ensures
            r.access_token == access_token,
            r.token_type == token_type,
            r.expires_in == match expires_secs {
                Some(d) => Some(d as i64),
                None => None::<i64>,
            },
            match scopes {
                Some(v) => r.scope matches Some(t) && t@ == joined(texts(v@)),
                None => r.scope is None,
            },
    {
        let expires_in = match expires_secs {
            Some(d) => Some(d as i64),
            None => None,
        };
        let scope = match scopes {
            Some(v) => Some(join_with_spaces(&v)),
            None => None,
        };
        TokenInfo { access_token, token_type, expires_in, scope }
    }
}

} // verus!

verus! {

/// Why an authorization attempt failed.
#[derive(Debug, Clone, Copy, PartialEq, Eq, Structural)]
pub enum AuthError {
    /// The redirect carried a state other than the pending one.
    CsrfMismatch,
    /// No flow is pending.
    NoPendingFlow,
    /// The token endpoint did not hand out a token.
    ExchangeFailed,
    /// The authorization or redirect endpoint is not a valid URL.
    InvalidEndpoint,
}

pub open spec fn auth_error_text(e: AuthError) -> Seq<char> {
    match e {
        AuthError::CsrfMismatch => "State mismatch - possible CSRF attack"@,
        AuthError::NoPendingFlow => "No auth state found"@,
        AuthError::ExchangeFailed => "Token exchange failed"@,
        AuthError::InvalidEndpoint => "Invalid authorization endpoint"@,
    }
}

impl AuthError {
    /// A sentence that says what went wrong.
    pub fn describe(&self) -> (r: String)
        ensures
            r@ == auth_error_text(*self),
    {
        match self {
            AuthError::CsrfMismatch => String::from_str("State mismatch - possible CSRF attack"),
            AuthError::NoPendingFlow => String::from_str("No auth state found"),
            AuthError::ExchangeFailed => String::from_str("Token exchange failed"),
            AuthError::InvalidEndpoint => String::from_str("Invalid authorization endpoint"),
        }
    }
}

/// Who the client is and what it asks for. Fixed once built.
#[derive(Debug, Clone)]
pub struct AuthConfig {
    pub client_id: String,
    pub redirect_port: u16,
    pub scopes: Vec<String>,
}

pub open spec fn client_id_prefix() -> Seq<char> {
    "lichess-rust-client-"@
}

pub open spec fn default_scopes() -> Seq<Seq<char>> {
    seq!["challenge:read"@, "challenge:write"@, "bot:play"@, "board:play"@]
}

pub open spec fn authorization_endpoint() -> Seq<char> {
    "https://lichess.org/oauth"@
}

/// Where the provider sends the browser back to: the local listener.
pub open spec fn redirect_uri(host: Seq<char>, port: u16) -> Seq<char> {
    "http://"@ + host + ":"@ + decimal(port as nat) + "/callback"@
}

pub open spec fn token_endpoint(api_base: Seq<char>) -> Seq<char> {
    api_base + "/token"@
}

/// The views of a list of strings.
pub open spec fn texts(v: Seq<String>) -> Seq<Seq<char>> {
    v.map_values(|s: String| s@)
}

/// Relies on `uuid::Uuid::new_v4` and its hyphenated `Display` form: a fresh
/// random identifier of 36 characters.
#[verifier::external_body]
fn random_uuid_text() -> (r: String)
    ensures
        r@.len() == 36,
{
    uuid::Uuid::new_v4().to_string()
}

impl Default for AuthConfig {
    /// A fresh client identifier, the listener on port 8080, and the scopes
    /// that reading challenges and playing through the board API need.
    fn default() -> (r: AuthConfig)
        ensures
            r.client_id@.len() == client_id_prefix().len() + 36,
            r.client_id@.subrange(0, client_id_prefix().len() as int) == client_id_prefix(),
            r.redirect_port == 8080,
            texts(r.scopes@) == default_scopes(),
    {
        let mut client_id = String::from_str("lichess-rust-client-");
        let suffix = random_uuid_text();
        client_id.append(suffix.as_str());
        let mut scopes: Vec<String> = Vec::new();
        scopes.push(String::from_str("challenge:read"));
        scopes.push(String::from_str("challenge:write"));
        scopes.push(String::from_str("bot:play"));
        scopes.push(String::from_str("board:play"));
        proof {
            reveal_strlit("lichess-rust-client-");
            assert(client_id@.subrange(0, 20) =~= client_id_prefix());
            assert(texts(scopes@) =~= default_scopes());
        }
        AuthConfig { client_id, redirect_port: 8080, scopes }
    }
}

/// The flow in progress: the CSRF state, the PKCE verifier, and the URL that
/// the user opens.
#[derive(Debug)]
pub struct AuthState {
    pub state: String,
    pub code_verifier: String,
    pub auth_url: String,
}

impl Clone for AuthState {
    fn clone(&self) -> (r: AuthState)
        ensures
            r == *self,
    {
        AuthState {
            state: self.state.clone(),
            code_verifier: self.code_verifier.clone(),
            auth_url: self.auth_url.clone(),
        }
    }
}

/// What the token endpoint is sent once the redirect passed the CSRF check.
#[derive(Debug, Clone)]
pub struct TokenRequest {
    pub code: String,
    pub code_verifier: String,
}

/// The query of the provider's redirect.
#[derive(Debug, Clone)]
pub struct AuthCallbackQuery {
    pub code: Option<String>,
    pub state: Option<String>,
    pub error: Option<String>,
    pub error_description: Option<String>,
}

/// An HTML page and the status it is served with.
#[derive(Debug, Clone)]
pub struct CallbackPage {
    pub status: u16,
    pub html: String,
}

/// What the listener does with a redirect.
#[derive(Debug, Clone)]
pub enum CallbackStep {
    /// Answer with this page; no exchange takes place.
    Respond(CallbackPage),
    /// Ask the token endpoint for a token.
    Exchange(TokenRequest),
}

/// Whether `url::Url::parse` accepts `s`; the `oauth2` endpoint types
/// (`AuthUrl`, `RedirectUrl`, `TokenUrl`) are built exactly when it does.
pub uninterp spec fn parses_as_url(s: Seq<char>) -> bool;

/// Relies on `url::Url::parse` (re-exported by `oauth2`, and called by
/// `AuthUrl::new`, `RedirectUrl::new` and `TokenUrl::new`): whether `s` is an
/// absolute URL depends on `s` alone.
#[verifier::external_body]
fn url_parses(s: &String) -> (r: bool)
    ensures
        r == parses_as_url(s@),
{
    oauth2::url::Url::parse(s).is_ok()
}

/// The authorization URL that the `oauth2` crate builds for these values.
pub uninterp spec fn authorize_url_of(
    auth_url: Seq<char>,
    client_id: Seq<char>,
    redirect_url: Seq<char>,
    state: Seq<char>,
    code_verifier: Seq<char>,
    scopes: Seq<Seq<char>>,
) -> Seq<char>;

/// Relies on `oauth2::CsrfToken::new_random`: 16 random bytes in unpadded
/// URL-safe base64, 22 characters.
#[verifier::external_body]
fn random_csrf_state() -> (r: String)
    ensures
        r@.len() == 22,
{
    oauth2::CsrfToken::new_random().secret().clone()
}

/// Relies on `oauth2::PkceCodeChallenge::new_random_sha256`: a verifier of 32
/// random bytes in unpadded URL-safe base64, 43 ASCII characters.
#[verifier::external_body]
fn random_pkce_verifier() -> (r: String)
    ensures
        r@.len() == 43,
        r.is_ascii(),
{
    oauth2::PkceCodeChallenge::new_random_sha256().1.secret().clone()
}

/// Relies on `oauth2`'s authorization request: the endpoint with the query
/// pairs `response_type=code`, `client_id`, `state`, the S256 challenge of
/// the verifier, `redirect_uri` and the space-joined scopes. Only parsing the
/// endpoint and the redirect URI can fail (`AuthorizationRequest::url` cannot);
/// the challenge is only computed for a verifier of 43 to 128 bytes.
#[verifier::external_body]
fn build_authorize_url(
    auth_url: &String,
    client_id: &String,
    redirect_url: &String,
    state: &String,
    code_verifier: &String,
    scopes: &Vec<String>,
) -> (r: Option<String>)
    requires
        43 <= code_verifier@.len() <= 128,
        code_verifier.is_ascii(),
    ensures
        r matches Some(u) ==> parses_as_url(auth_url@) && parses_as_url(redirect_url@)
            && u@ == authorize_url_of(auth_url@, client_id@, redirect_url@, state@, code_verifier@, texts(scopes@)),
        r is None ==> !(parses_as_url(auth_url@) && parses_as_url(redirect_url@)),
{
    let client = oauth2::basic::BasicClient::new(oauth2::ClientId::new(client_id.clone()))
        .set_auth_uri(oauth2::AuthUrl::new(auth_url.clone()).ok()?)
        .set_redirect_uri(oauth2::RedirectUrl::new(redirect_url.clone()).ok()?);
    let verifier = oauth2::PkceCodeVerifier::new(code_verifier.clone());
    let challenge = oauth2::PkceCodeChallenge::from_code_verifier_sha256(&verifier);
    let csrf = oauth2::CsrfToken::new(state.clone());
    let request = client.authorize_url(move || csrf).set_pkce_challenge(challenge);
    let request = request.add_scopes(scopes.iter().cloned().map(oauth2::Scope::new));
    Some(request.url().0.to_string())
}

/// The client's side of the login: its endpoints and the one pending flow.
#[derive(Debug)]
pub struct OAuth2Client {
    pub config: AuthConfig,
    pub client_id: String,
    pub redirect_url: String,
    pub auth_url: String,
    pub token_url: String,
    /// The pending flow; a new one replaces it.
    pub state: Option<AuthState>,
}

impl OAuth2Client {
    /// The authorization endpoint and the redirect URI are valid URLs: what a
    /// flow needs to start.
    pub open spec fn endpoints_parse(&self) -> bool {
        parses_as_url(self.auth_url@) && parses_as_url(self.redirect_url@)
    }

    /// A client for `config` whose listener is reached at `host_ip`, talking
    /// to the token endpoint under `api_base`, with no flow pending. Fails
    /// with `InvalidEndpoint` exactly when the authorization endpoint, the
    /// redirect URI or the token endpoint is not a valid URL.
    pub fn new(config: AuthConfig, host_ip: &str, api_base: &str) -> (r: Result<OAuth2Client, AuthError>)
        ensures
            r is Ok <==> parses_as_url(authorization_endpoint()) && parses_as_url(
                redirect_uri(host_ip@, config.redirect_port),
            ) && parses_as_url(token_endpoint(api_base@)),
            match r {
                Ok(c) => {
                    &&& c.client_id@ == config.client_id@
                    &&& c.redirect_url@ == redirect_uri(host_ip@, config.redirect_port)
                    &&& c.auth_url@ == authorization_endpoint()
                    &&& c.token_url@ == token_endpoint(api_base@)
                    &&& c.config == config
                    &&& c.state is None
                    &&& c.endpoints_parse()
                },
                Err(e) => e == AuthError::InvalidEndpoint,
            },
    {
        let mut redirect = String::from_str("http://");
        redirect.append(host_ip);
        redirect.append(":");
        push_decimal(&mut redirect, config.redirect_port as u64);
        redirect.append("/callback");
        let mut token_url = String::from_str(api_base);
        token_url.append("/token");
        let auth_url = String::from_str("https://lichess.org/oauth");
        if !(url_parses(&auth_url) && url_parses(&redirect) && url_parses(&token_url)) {
            return Err(AuthError::InvalidEndpoint);
        }
        let client_id = config.client_id.clone();
        Ok(OAuth2Client { client_id, redirect_url: redirect, auth_url, token_url, config, state: None })
    }

    /// Starts a flow with a fresh random CSRF state (22 characters) and PKCE
    /// verifier (43 characters); see [`OAuth2Client::begin_auth_flow`]. It
    /// succeeds exactly when the endpoints parse, as they do for every client
    /// that [`OAuth2Client::new`] returns.
    pub fn start_auth_flow(&mut self) -> (r: Result<AuthState, AuthError>)
        ensures
            r is Ok <==> old(self).endpoints_parse(),
            match r {
                Ok(st) => {
                    &&& st.state@.len() == 22
                    &&& st.code_verifier@.len() == 43
                    &&& st.auth_url@ == authorize_url_of(old(self).auth_url@, old(self).client_id@, old(self).redirect_url@, st.state@, st.code_verifier@, texts(old(self).config.scopes@))
                    &&& *final(self) == (OAuth2Client { state: Some(st), ..*old(self) })
                },
                Err(e) => e == AuthError::InvalidEndpoint && *final(self) == *old(self),
            },
    {
        let state = random_csrf_state();
        let verifier = random_pkce_verifier();
        self.begin_auth_flow(state, verifier)
    }

    /// Starts a flow with the given CSRF `state` and PKCE `code_verifier`:
    /// builds the authorization URL and makes the flow the pending one,
    /// replacing any earlier one. When the endpoints do not parse, nothing
    /// changes and the answer is `InvalidEndpoint`.
    pub fn begin_auth_flow(&mut self, state: String, code_verifier: String) -> (r: Result<AuthState, AuthError>)
        requires
            43 <= code_verifier@.len() <= 128,
            code_verifier.is_ascii(),
        ensures
            r is Ok <==> old(self).endpoints_parse(),
            match r {
                Ok(st) => {
                    &&& st.state == state
                    &&& st.code_verifier == code_verifier
                    &&& st.auth_url@ == authorize_url_of(old(self).auth_url@, old(self).client_id@, old(self).redirect_url@, state@, code_verifier@, texts(old(self).config.scopes@))
                    &&& *final(self) == (OAuth2Client { state: Some(st), ..*old(self) })
                },
                Err(e) => e == AuthError::InvalidEndpoint && *final(self) == *old(self),
            },
    {
        let url = build_authorize_url(
            &self.auth_url,
            &self.client_id,
            &self.redirect_url,
            &state,
            &code_verifier,
            &self.config.scopes,
        );
        match url {
            None => Err(AuthError::InvalidEndpoint),
            Some(auth_url) => {
                let pending = AuthState { state, code_verifier, auth_url };
                let out = pending.clone();
                self.state = Some(pending);
                Ok(out)
            },
        }
    }

    /// Checks the `state` of a redirect against the pending flow. With no
    /// flow pending the answer is `NoPendingFlow` and nothing changes. A state
    /// other than the pending one is `CsrfMismatch`, whatever the code, and
    /// discards the pending flow. A matching state yields the token request,
    /// made of `code` and the pending verifier; the flow stays pending until
    /// the exchange succeeds.
    pub fn exchange_code(&mut self, code: String, state: String) -> (r: Result<TokenRequest, AuthError>)
        ensures
            match old(self).state {
                None => r == Err::<TokenRequest, AuthError>(AuthError::NoPendingFlow) && *final(self) == *old(self),
                Some(p) => if p.state@ != state@ {
                    r == Err::<TokenRequest, AuthError>(AuthError::CsrfMismatch)
                        && *final(self) == (OAuth2Client { state: None, ..*old(self) })
                } else {
                    r matches Ok(req) && req.code == code && req.code_verifier@ == p.code_verifier@
                        && *final(self) == *old(self)
                },
            },
    {
        let verifier = match &self.state {
            None => {
                return Err(AuthError::NoPendingFlow);
            },
            Some(p) => {
                if p.state != state {
                    None
                } else {
                    Some(p.code_verifier.clone())
                }
            },
        };
        match verifier {
            None => {
                self.state = None;
                Err(AuthError::CsrfMismatch)
            },
            Some(code_verifier) => Ok(TokenRequest { code, code_verifier }),
        }
    }

    /// Takes the answer of the token endpoint: a token ends the pending flow
    /// and is handed back; no token is `ExchangeFailed`, and the flow stays.
    pub fn complete_exchange(&mut self, grant: Option<TokenInfo>) -> (r: Result<TokenInfo, AuthError>)
        ensures
            match grant {
                Some(t) => r == Ok::<TokenInfo, AuthError>(t) && *final(self) == (OAuth2Client { state: None, ..*old(self) }),
                None => r == Err::<TokenInfo, AuthError>(AuthError::ExchangeFailed) && *final(self) == *old(self),
            },
    {
        match grant {
            Some(t) => {
                self.state = None;
                Ok(t)
            },
            None => Err(AuthError::ExchangeFailed),
        }
    }

    /// Decides what the listener does with a redirect. An `error` parameter
    /// fails the attempt at once with that reason; a missing `code` or
    /// `state` fails it too; otherwise the state is checked as
    /// [`OAuth2Client::exchange_code`] does, and a failed check is answered
    /// with its reason.
    pub fn handle_callback(&mut self, query: AuthCallbackQuery) -> (r: CallbackStep)
        ensures
            match (query.error, query.code, query.state) {
                (Some(e), _, _) => *final(self) == *old(self) && (r matches CallbackStep::Respond(p)
                    && p.status == 400 && p.html@ == failure_page(provider_error_text(e@, description_text(query.error_description)))),
                (None, None, _) => *final(self) == *old(self) && (r matches CallbackStep::Respond(p)
                    && p.status == 400 && p.html@ == failure_page(no_code_text())),
                (None, Some(_), None) => *final(self) == *old(self) && (r matches CallbackStep::Respond(p)
                    && p.status == 400 && p.html@ == failure_page(no_state_text())),
                (None, Some(code), Some(state)) => match old(self).state {
                    None => *final(self) == *old(self) && (r matches CallbackStep::Respond(p)
                        && p.status == 500 && p.html@ == failure_page(exchange_failure_text(AuthError::NoPendingFlow))),
                    Some(pending) => if pending.state@ != state@ {
                        *final(self) == (OAuth2Client { state: None, ..*old(self) }) && (r matches CallbackStep::Respond(p)
                            && p.status == 500 && p.html@ == failure_page(exchange_failure_text(AuthError::CsrfMismatch)))
                    } else {
                        *final(self) == *old(self) && (r matches CallbackStep::Exchange(req) && req.code == code
                            && req.code_verifier@ == pending.code_verifier@)
                    },
                },
            },
    {
        if let Some(e) = query.error {
            let mut msg = String::from_str("Authorization failed: ");
            msg.append(e.as_str());
            msg.append(" - ");
            match &query.error_description {
                Some(d) => msg.append(d.as_str()),
                None => {},
            }
            return CallbackStep::Respond(CallbackPage { status: 400, html: render_failure_page(msg.as_str()) });
        }
        let code = match query.code {
            Some(c) => c,
            None => {
                return CallbackStep::Respond(CallbackPage {
                    status: 400,
                    html: render_failure_page("No authorization code received."),
                });
            },
        };
        let state = match query.state {
            Some(s) => s,
            None => {
                return CallbackStep::Respond(CallbackPage {
                    status: 400,
                    html: render_failure_page("No state parameter received."),
                });
            },
        };
        match self.exchange_code(code, state) {
            Ok(req) => CallbackStep::Exchange(req),
            Err(e) => CallbackStep::Respond(exchange_failure_page(e)),
        }
    }

    /// Takes the answer of the token endpoint, as
    /// [`OAuth2Client::complete_exchange`] does, and gives the page that
    /// tells the user how the login ended.
    pub fn exchange_response(&mut self, grant: Option<TokenInfo>) -> (r: (Result<TokenInfo, AuthError>, CallbackPage))
        ensures
            match grant {
                Some(t) => r.0 == Ok::<TokenInfo, AuthError>(t) && *final(self) == (OAuth2Client { state: None, ..*old(self) })
                    && r.1.status == 200 && r.1.html@ == success_page(),
                None => r.0 == Err::<TokenInfo, AuthError>(AuthError::ExchangeFailed) && *final(self) == *old(self)
                    && r.1.status == 500 && r.1.html@ == failure_page(exchange_failure_text(AuthError::ExchangeFailed)),
            },
    {
        let outcome = self.complete_exchange(grant);
        let page = match &outcome {
            Ok(_) => CallbackPage { status: 200, html: String::from_str(SUCCESS_PAGE) },
            Err(e) => exchange_failure_page(*e),
        };
        (outcome, page)
    }
}

pub const FAILURE_PAGE_HEAD: &'static str = "<!DOCTYPE html><html><head><title>Auth Failed</title></head><body><h1>Authorization Failed</h1><p>";

pub const FAILURE_PAGE_TAIL: &'static str = "</p><p>You can close this window.</p></body></html>";

pub const SUCCESS_PAGE: &'static str = "<!DOCTYPE html><html><head><title>Auth Success</title></head><body><h1>Authorization Successful!</h1><p>You have successfully authenticated with Lichess.</p><p>You can now close this window and return to your application.</p></body></html>";

pub const WAITING_PAGE: &'static str = "<!DOCTYPE html><html><head><title>Lichess OAuth</title></head><body><h1>Lichess OAuth Server</h1><p>Waiting for OAuth callback...</p></body></html>";

/// The page that reports a failed login with `reason`.
pub open spec fn failure_page(reason: Seq<char>) -> Seq<char> {
    FAILURE_PAGE_HEAD@ + reason + FAILURE_PAGE_TAIL@
}

pub open spec fn success_page() -> Seq<char> {
    SUCCESS_PAGE@
}

pub open spec fn description_text(d: Option<String>) -> Seq<char> {
    match d {
        Some(t) => t@,
        None => Seq::empty(),
    }
}

pub open spec fn provider_error_text(error: Seq<char>, description: Seq<char>) -> Seq<char> {
    "Authorization failed: "@ + error + " - "@ + description
}

pub open spec fn no_code_text() -> Seq<char> {
    "No authorization code received."@
}

pub open spec fn no_state_text() -> Seq<char> {
    "No state parameter received."@
}

pub open spec fn exchange_failure_text(e: AuthError) -> Seq<char> {
    "Failed to exchange code: "@ + auth_error_text(e)
}

/// The failure page for `reason`.
pub fn render_failure_page(reason: &str) -> (r: String)
    ensures
        r@ == failure_page(reason@),
{
    let mut page = String::from_str(FAILURE_PAGE_HEAD);
    page.append(reason);
    page.append(FAILURE_PAGE_TAIL);
    page
}

fn exchange_failure_page(e: AuthError) -> (r: CallbackPage)
    ensures
        r.status == 500,
        r.html@ == failure_page(exchange_failure_text(e)),
{
    let mut msg = String::from_str("Failed to exchange code: ");
    let reason = e.describe();
    msg.append(reason.as_str());
    CallbackPage { status: 500, html: render_failure_page(msg.as_str()) }
}

/// The page served at the listener's root while it waits for the redirect.
pub fn root_handler() -> (r: String)
    ensures
        r@ == WAITING_PAGE@,
{
    String::from_str(WAITING_PAGE)
}

} // verus!
