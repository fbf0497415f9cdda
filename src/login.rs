//! How a session gets its credential: a stored token is tried first and
//! checked against the profile endpoint; any failure there falls back to the
//! interactive flow, whose instructions are built here.

use vstd::prelude::*;
use vstd::string::StringExecFns;
use crate::api::{profile_outcome, profile_result, ApiError};
use crate::oauth::{AuthState, LichessUser, TokenInfo};
use qrcode::render::unicode::Dense1x2;

verus! {

/// Why no stored credential could be used.
#[derive(Debug, Clone, Copy, PartialEq, Eq, Structural)]
pub enum TokenError {
    /// No credential file exists.
    NotFound,
    /// The file exists but does not hold a credential record.
    Corrupt,
}

/// The next thing the login procedure does.
#[derive(Debug)]
pub enum LoginStep {
    /// Check this stored credential against the profile endpoint.
    Validate(TokenInfo),
    /// Run the interactive authorization flow.
    Interactive,
    /// Logged in: the credential and the account it belongs to.
    Done(TokenInfo, LichessUser),
}

/// The outcome of reading the credential file: `found` tells whether the
/// file exists, `parsed` what its contents decoded to.
pub fn load_token(found: bool, parsed: Option<TokenInfo>) -> (r: Result<TokenInfo, TokenError>)
    ensures
        !found ==> r == Err::<TokenInfo, TokenError>(TokenError::NotFound),
        found ==> match parsed {
            Some(t) => r == Ok::<TokenInfo, TokenError>(t),
            None => r == Err::<TokenInfo, TokenError>(TokenError::Corrupt),
        },
{
    if !found {
        Err(TokenError::NotFound)
    } else {
        match parsed {
            Some(t) => Ok(t),
            None => Err(TokenError::Corrupt),
        }
    }
}

/// A stored credential is validated; without one the flow is interactive.
pub fn after_token_load(loaded: Result<TokenInfo, TokenError>) -> (r: LoginStep)
    ensures
        match loaded {
            Ok(t) => r matches LoginStep::Validate(v) && v == t,
            Err(_) => r is Interactive,
        },
{
    match loaded {
        Ok(t) => LoginStep::Validate(t),
        Err(_) => LoginStep::Interactive,
    }
}

/// A stored credential that the profile endpoint accepts (2xx, with a
/// decoded profile) logs in; any other answer falls back to the
/// interactive flow.
pub fn after_validation(token: TokenInfo, status: u16, profile: Option<LichessUser>) -> (r: LoginStep)
    ensures
        match (profile_result(status), profile) {
            (Ok(()), Some(u)) => r matches LoginStep::Done(t, v) && t == token && v == u,
            _ => r is Interactive,
        },
{
    match profile_outcome(status) {
        Ok(()) => match profile {
            Some(u) => LoginStep::Done(token, u),
            None => LoginStep::Interactive,
        },
        Err(_) => LoginStep::Interactive,
    }
}

/// The text that `qrcode` renders for `data` (dense, two rows per line,
/// inverted colours), or `None` when the data does not fit a QR code.
pub uninterp spec fn qr_rendering(data: Seq<char>) -> Option<Seq<char>>;

/// Relies on `qrcode::QrCode::new` and its `Dense1x2` text renderer: the
/// rendering depends on the data alone.
#[verifier::external_body]
pub fn generate_qr_code(url: &str) -> (r: Option<String>)
    ensures
        r matches Some(t) ==> qr_rendering(url@) == Some(t@),
        r is None ==> qr_rendering(url@) is None,
{
    let code = qrcode::QrCode::new(url).ok()?;
    Some(code.render::<Dense1x2>().dark_color(Dense1x2::Light).light_color(Dense1x2::Dark).build())
}

pub open spec fn visit_line() -> Seq<char> {
    "Please visit the following URL to authenticate:"@
}

pub open spec fn scan_line() -> Seq<char> {
    "Or scan this QR code with your mobile device:"@
}

pub open spec fn no_code_line() -> Seq<char> {
    "Could not generate QR code"@
}

/// The lines shown to the user for a flow whose URL is `url`, with the QR
/// rendering `qr` of that URL when there is one.
pub open spec fn instruction_lines(url: Seq<char>, qr: Option<Seq<char>>) -> Seq<Seq<char>> {
    match qr {
        Some(q) => seq![visit_line(), url, scan_line(), q],
        None => seq![visit_line(), url, no_code_line()],
    }
}

/// The lines that tell the user how to open `url`, given its QR rendering.
pub fn instructions_with_code(url: &str, qr: Option<String>) -> (r: Vec<String>)
    ensures
        r@.map_values(|s: String| s@) == instruction_lines(url@, match qr {
            Some(q) => Some(q@),
            None => None,
        }),
{
    let mut lines: Vec<String> = Vec::new();
    lines.push(String::from_str("Please visit the following URL to authenticate:"));
    lines.push(String::from_str(url));
    match qr {
        Some(q) => {
            lines.push(String::from_str("Or scan this QR code with your mobile device:"));
            lines.push(q);
        },
        None => {
            lines.push(String::from_str("Could not generate QR code"));
        },
    }
    assert(lines@.map_values(|s: String| s@) =~= instruction_lines(url@, match qr {
        Some(q) => Some(q@),
        None => None,
    }));
    lines
}

/// The lines that tell the user how to complete the pending flow `auth`.
pub fn login_instructions(auth: &AuthState) -> (r: Vec<String>)
    ensures
        r@.map_values(|s: String| s@) == instruction_lines(auth.auth_url@, qr_rendering(auth.auth_url@)),
{
    let qr = generate_qr_code(auth.auth_url.as_str());
    instructions_with_code(auth.auth_url.as_str(), qr)
}

} // verus!
