//! Session tokens: the claims a token carries and how a request's token is
//! treated.

use vstd::prelude::*;
use vstd::string::*;
use crate::error::{ApiError, STATUS_UNAUTHORIZED};
use crate::text::str_equal;
use axum_extra::extract::cookie::{Cookie, SameSite};

verus! {

/// How long a session token stays valid: thirty days, in seconds.
pub const TOKEN_LIFETIME_SECS: i64 = 2592000;

/// The claims of a session token.
pub struct JwtClaims {
    /// When the token expires, in seconds since the epoch.
    pub exp: usize,
    pub username: String,
    /// The user's identifier, as the 128-bit value of its UUID.
    pub user_id: u128,
    /// When the token was issued, in seconds since the epoch.
    pub iat: usize,
}

/// The claims of a token issued at `now` (seconds since the epoch) to the
/// user `user_id` called `username`: issued now, expiring thirty days later.
pub fn make_claims(user_id: u128, username: String, now: i64) -> (c: JwtClaims)
    requires
        now <= i64::MAX - TOKEN_LIFETIME_SECS,
    ensures
        c.iat == now as usize,
        c.exp == (now + TOKEN_LIFETIME_SECS) as usize,
        c.user_id == user_id,
        c.username == username,
{
    JwtClaims { exp: (now + TOKEN_LIFETIME_SECS) as usize, username, user_id, iat: now as usize }
}

/// `chrono::Utc::now().timestamp()`: the current time, in seconds since the
/// epoch. Trusted: only that the value is not before the epoch (`Utc::now`
/// panics on a clock set earlier) and lies within the range of chrono's
/// dates (up to 262142 CE), which the bound below contains.
#[verifier::external_body]
fn utc_now_timestamp() -> (t: i64)
    ensures
        0 <= t <= 8_351_950_176_000,
{
    chrono::Utc::now().timestamp()
}

/// The claims of a token issued now to the user `user_id` called
/// `username`: issued at the current time and expiring thirty days later.
pub fn claims_now(user_id: u128, username: String) -> (c: JwtClaims)
    ensures
        c.user_id == user_id,
        c.username == username,
        exists|now: i64|
            #![trigger (now + TOKEN_LIFETIME_SECS)]
            0 <= now && c.iat == now as usize && c.exp == (now + TOKEN_LIFETIME_SECS) as usize,
        c.iat + TOKEN_LIFETIME_SECS <= usize::MAX ==> c.exp == c.iat + TOKEN_LIFETIME_SECS,
{
    let now = utc_now_timestamp();
    let c = make_claims(user_id, username, now);
    assert(c.iat == now as usize && c.exp == (now + TOKEN_LIFETIME_SECS) as usize);
    assert(((now as usize) + 2592000usize) as usize == (now as usize) + 2592000usize ==> ((now
        + 2592000i64) as usize) == ((now as usize) + 2592000usize) as usize) by (bit_vector);
    c
}

/// A token issued at a time after the epoch expires exactly thirty days
/// after it was issued.
pub proof fn lemma_token_lifetime(now: i64)
    requires
        0 <= now,
        now + TOKEN_LIFETIME_SECS <= usize::MAX,
    ensures
        ((now + TOKEN_LIFETIME_SECS) as usize) - (now as usize) == TOKEN_LIFETIME_SECS,
{
}

/// The `SameSite` attribute of a cookie.
#[derive(Debug, Clone, Copy, PartialEq, Eq, Structural)]
pub enum CookieSameSite {
    Strict,
    Lax,
    /// `SameSite=None`: sent on cross-site requests too.
    Unrestricted,
}

/// The `Set-Cookie` text of a cookie `name=value` with the given path,
/// lifetime in seconds, `SameSite` attribute and `HttpOnly` flag, as the
/// `cookie` crate writes it.
pub uninterp spec fn cookie_text(
    name: Seq<char>,
    value: Seq<char>,
    path: Seq<char>,
    max_age_secs: i64,
    same_site: CookieSameSite,
    http_only: bool,
) -> Seq<char>;

/// `Cookie::build((name, value))` with `path`, `max_age`, `same_site` and
/// `http_only` set, written out with `to_string`. Trusted: the text is
/// `cookie_text` of the arguments.
#[verifier::external_body]
fn render_cookie(
    name: &str,
    value: &str,
    path: &str,
    max_age_secs: i64,
    same_site: CookieSameSite,
    http_only: bool,
) -> (s: String)
    ensures
        s@ == cookie_text(name@, value@, path@, max_age_secs, same_site, http_only),
{
    let same_site = match same_site {
        CookieSameSite::Strict => SameSite::Strict,
        CookieSameSite::Lax => SameSite::Lax,
        CookieSameSite::Unrestricted => SameSite::None,
    };
    Cookie::build((name.to_owned(), value.to_owned())).path(path.to_owned()).max_age(
        time::Duration::seconds(max_age_secs),
    ).same_site(same_site).http_only(http_only).to_string()
}

/// The `Set-Cookie` value that hands a signed-in user its session token:
/// the cookie `token` for the whole site (`/`), living as long as the token
/// (thirty days), sent on same-site requests and top-level navigation
/// (`SameSite=Lax`) and hidden from scripts (`HttpOnly`).
pub fn session_cookie(token: &str) -> (s: String)
    ensures
        s@ == cookie_text("token"@, token@, "/"@, TOKEN_LIFETIME_SECS, CookieSameSite::Lax, true),
{
    render_cookie("token", token, "/", TOKEN_LIFETIME_SECS, CookieSameSite::Lax, true)
}

/// The JSON text of an object with the two string members `k1: v1` and
/// `k2: v2`, as `serde_json` writes it.
pub uninterp spec fn json_object_text(
    k1: Seq<char>,
    v1: Seq<char>,
    k2: Seq<char>,
    v2: Seq<char>,
) -> Seq<char>;

/// A `serde_json::Map` holding the string members `k1: v1` and `k2: v2`,
/// written out as an object with `to_string`. Trusted: the text is
/// `json_object_text` of the arguments.
#[verifier::external_body]
fn render_json_object(k1: &str, v1: &str, k2: &str, v2: &str) -> (s: String)
    ensures
        s@ == json_object_text(k1@, v1@, k2@, v2@),
{
    let mut map = serde_json::Map::new();
    map.insert(k1.to_owned(), serde_json::Value::String(v1.to_owned()));
    map.insert(k2.to_owned(), serde_json::Value::String(v2.to_owned()));
    serde_json::Value::Object(map).to_string()
}

/// The body of a successful sign-in: `{"status":"success","token":token}`.
pub fn signin_body(token: &str) -> (s: String)
    ensures
        s@ == json_object_text("status"@, "success"@, "token"@, token@),
{
    render_json_object("status", "success", "token", token)
}

/// Why a token could not be decoded.
#[derive(Debug, Clone, Copy, PartialEq, Eq, Structural)]
pub enum TokenErrorKind {
    /// The token is not a well-formed token.
    InvalidToken,
    /// Any other reason: a bad signature, an expired token, and so on.
    Other,
}

/// How a request carrying a token is treated, given what decoding the token
/// gave and the request's URI: a decoded token identifies the user; a token
/// that cannot be decoded leaves the request unidentified but lets it
/// through.
pub open spec fn token_outcome(decoded: Result<u128, TokenErrorKind>) -> Result<
    Option<u128>,
    ApiError,
> {
    match decoded {
        Ok(id) => Ok(Some(id)),
        Err(_) => Ok(None),
    }
}

/// Treats a request that carries a token: a decoded token identifies the
/// user; otherwise the request goes on unidentified unless it is at once
/// not for `/signin` and not for `/signup`, in which case it is refused as
/// unauthorized (a case that no URI meets).
pub fn check_token(decoded: Result<u128, TokenErrorKind>, uri: &str) -> (r: Result<
    Option<u128>,
    ApiError,
>)
    ensures
        r matches Ok(o) && token_outcome(decoded) == Ok::<Option<u128>, ApiError>(o),
{
    match decoded {
        Ok(user_id) => Ok(Some(user_id)),
        Err(kind) => {
            if !str_equal(uri, "/signin") || !str_equal(uri, "/signup") {
                return Ok(None);
            }
            proof {
                reveal_strlit("/signin");
                reveal_strlit("/signup");
                assert("/signin"@[5] != "/signup"@[5]);
            }
            match kind {
                TokenErrorKind::InvalidToken => Err(
                    ApiError::new(STATUS_UNAUTHORIZED, "Invalid Token"),
                ),
                TokenErrorKind::Other => Err(ApiError::new(STATUS_UNAUTHORIZED, "Unauthorized")),
            }
        },
    }
}

/// A session lasts thirty days of twenty-four hours.
pub proof fn lemma_lifetime_is_thirty_days()
    ensures
        TOKEN_LIFETIME_SECS == 30 * 24 * 60 * 60,
{
}

/// A decoded token identifies its user, and a token that cannot be decoded,
/// for whatever reason, lets the request through unidentified rather than
/// refusing it.
pub proof fn lemma_token_outcomes(decoded: Result<u128, TokenErrorKind>)
    ensures
        decoded matches Ok(id) ==> token_outcome(decoded) == Ok::<Option<u128>, ApiError>(Some(id)),
        decoded is Err ==> token_outcome(decoded) == Ok::<Option<u128>, ApiError>(None),
{
}

} // verus!
