use vstd::prelude::*;
use crate::bindings::{decode_hs256, hs256_claims, LATEST_TIMESTAMP};
use crate::clock::{clock_gives, current_timestamp};
use crate::http::session::{authenticated_user, SESSION_SECONDS};
use crate::models::config::{find_user, lemma_find_user, Configuration};
use crate::models::user::{TokenClaims, User};

verus! {

/// The scheme that prefixes a token in an `Authorization` header.
pub const BEARER_PREFIX: &'static str = "Bearer ";

/// The body of a JSON error answer.
#[derive(Debug)]
pub struct ErrorResponse {
    pub status: &'static str,
    pub message: &'static str,
}

/// Why a request is not let through to a signed-in page.
#[derive(Debug)]
pub enum AuthError {
    /// The request carries no session token.
    NotLoggedIn,
    /// The token is not one this board signed, or it has expired.
    InvalidToken,
    /// The token names a user the configuration no longer has.
    UnknownUser,
    /// The clock could not be read, so the token's expiry cannot be checked.
    ClockUnavailable,
}

/// How long after its expiry time a token is still accepted, in seconds,
/// to allow for clocks that differ (jsonwebtoken's default leeway).
pub const EXPIRY_LEEWAY_SECONDS: u64 = 60;

/// The message shown for an authentication error.
pub open spec fn auth_error_message(e: AuthError) -> Seq<char> {
    match e {
        AuthError::NotLoggedIn => "You are not logged. Please <a href='/login'>log in</a>"@,
        AuthError::InvalidToken => "Invalid token. Please <a href='/login'>log in</a>"@,
        AuthError::UnknownUser => "The user belonging to this token no longer exists. Please <a href='/login'>log in</a>"@,
        AuthError::ClockUnavailable => "The server cannot read the current time. Please try again later"@,
    }
}

impl AuthError {
    /// The message shown for this error.
    pub fn message(&self) -> (r: String)
        ensures
            r@ == auth_error_message(*self),
    {
        match self {
            AuthError::NotLoggedIn => "You are not logged. Please <a href='/login'>log in</a>".to_owned(),
            AuthError::InvalidToken => "Invalid token. Please <a href='/login'>log in</a>".to_owned(),
            AuthError::UnknownUser => "The user belonging to this token no longer exists. Please <a href='/login'>log in</a>".to_owned(),
            AuthError::ClockUnavailable => "The server cannot read the current time. Please try again later".to_owned(),
        }
    }
}

/// The token of an `Authorization` header: what follows `Bearer `.
pub open spec fn bearer_value(header: Seq<char>) -> Option<Seq<char>> {
    if BEARER_PREFIX@.is_prefix_of(header) {
        Some(header.skip(BEARER_PREFIX@.len() as int))
    } else {
        None
    }
}

/// The session token of a request: its `token` cookie, else the token of its
/// `Authorization` header.
pub open spec fn request_token_value(cookie: Option<Seq<char>>, authorization: Option<Seq<char>>) -> Option<Seq<char>> {
    match cookie {
        Some(c) => Some(c),
        None => match authorization {
            Some(h) => bearer_value(h),
            None => None,
        },
    }
}

/// Who a checked token lets in: no one when the token did not check, else
/// the first user named by the token, if there still is one.
pub open spec fn resolution(users: Seq<User>, subject: Option<Seq<char>>) -> Result<User, AuthError> {
    match subject {
        None => Err(AuthError::InvalidToken),
        Some(name) => match find_user(users, name) {
            Some(u) => Ok(u),
            None => Err(AuthError::UnknownUser),
        },
    }
}

/// The subject of optional claims.
pub open spec fn subject_of(claims: Option<TokenClaims>) -> Option<Seq<char>> {
    match claims {
        Some(c) => Some(c.sub@),
        None => None,
    }
}

/// The text of an optional string.
pub open spec fn text_of(s: Option<String>) -> Option<Seq<char>> {
    match s {
        Some(t) => Some(t@),
        None => None,
    }
}

/// A session token names the user who signed in, and that name lets the
/// same user back in: the first user with a name is the one found again by
/// that name.
pub proof fn lemma_session_subject_resolves(users: Seq<User>, name: Seq<char>, password: Seq<char>)
    requires
        authenticated_user(users, name, password) is Some,
    ensures
        resolution(users, Some(authenticated_user(users, name, password)->0.name@))
            == Ok::<User, AuthError>(authenticated_user(users, name, password)->0),
{
    lemma_find_user(users, name);
}

/// The `Authorization` header `Bearer <token>` carries `<token>`.
pub proof fn lemma_bearer_round_trip(token: Seq<char>)
    ensures
        bearer_value(BEARER_PREFIX@ + token) == Some(token),
{
    let h = BEARER_PREFIX@ + token;
    assert(BEARER_PREFIX@.is_prefix_of(h)) by {
        assert(h.subrange(0, BEARER_PREFIX@.len() as int) =~= BEARER_PREFIX@);
    }
    assert(h.skip(BEARER_PREFIX@.len() as int) =~= token);
}

/// A `token` cookie is the request's session token, whatever its
/// `Authorization` header says.
pub proof fn lemma_cookie_first(cookie: Seq<char>, authorization: Option<Seq<char>>)
    ensures
        request_token_value(Some(cookie), authorization) == Some(cookie),
{
}

/// The token that an `Authorization` header carries.
pub fn bearer_token(header: &str) -> (r: Option<String>)
    ensures
        text_of(r) == bearer_value(header@),
{
    proof {
        reveal_strlit("Bearer ");
    }
    let n = header.unicode_len();
    if n < 7 {
        return None;
    }
    let head = header.substring_char(0, 7);
    if head.eq(BEARER_PREFIX) {
        proof {
            assert(BEARER_PREFIX@.is_prefix_of(header@)) by {
                assert(header@.subrange(0, 7) =~= BEARER_PREFIX@);
            }
        }
        Some(header.substring_char(7, n).to_owned())
    } else {
        proof {
            if BEARER_PREFIX@.is_prefix_of(header@) {
                assert(header@.subrange(0, 7) =~= BEARER_PREFIX@);
            }
        }
        None
    }
}

/// The session token a request carries: its `token` cookie, else the token
/// of its `Authorization` header.
pub fn request_token(cookie: Option<String>, authorization: Option<String>) -> (r: Option<String>)
    ensures
        text_of(r) == request_token_value(text_of(cookie), text_of(authorization)),
{
    match cookie {
        Some(c) => Some(c),
        None => match authorization {
            Some(h) => bearer_token(h.as_str()),
            None => None,
        },
    }
}

/// Who the claims of a checked token let in (`None`: the token did not check).
pub fn resolve_claims(config: &Configuration, claims: Option<TokenClaims>) -> (r: Result<User, AuthError>)
    ensures
        r == resolution(config.users@, subject_of(claims)),
{
    match claims {
        None => Err(AuthError::InvalidToken),
        Some(c) => match config.get_user(c.sub.as_str()) {
            Some(u) => Ok(u),
            None => Err(AuthError::UnknownUser),
        },
    }
}

/// The claims `(sub, exp, iat)` of optional claims.
pub open spec fn claims_view(claims: Option<TokenClaims>) -> Option<(Seq<char>, int, int)> {
    match claims {
        Some(c) => Some((c.sub@, c.exp as int, c.iat as int)),
        None => None,
    }
}

/// An optional clock reading as an integer.
pub open spec fn reading_view(now: Option<i64>) -> Option<int> {
    match now {
        Some(t) => Some(t as int),
        None => None,
    }
}

/// A token expiring at `exp` is still accepted at `now`: jsonwebtoken's
/// expiry check refuses it only once `exp` lies more than the leeway
/// before `now`.
pub open spec fn unexpired(exp: int, now: int) -> bool {
    now <= exp + EXPIRY_LEEWAY_SECONDS
}

/// Who a session lets in, given the claims of its token (`None`: the token
/// did not check) and the clock reading (`None`: the clock could not be
/// read): no one when the token did not check or has expired, else the
/// first user the token names, if there still is one.
pub open spec fn session_check(
    users: Seq<User>,
    claims: Option<(Seq<char>, int, int)>,
    now: Option<int>,
) -> Result<User, AuthError> {
    match claims {
        None => Err(AuthError::InvalidToken),
        Some((sub, exp, _iat)) => match now {
            None => Err(AuthError::ClockUnavailable),
            Some(t) => if unexpired(exp, t) {
                resolution(users, Some(sub))
            } else {
                Err(AuthError::InvalidToken)
            },
        },
    }
}

/// A clock reading `current_timestamp` can give: none, or a time between
/// the Unix epoch and the latest instant chrono represents.
pub open spec fn possible_reading(now: Option<int>) -> bool {
    now matches Some(t) ==> 0 <= t <= LATEST_TIMESTAMP
}

/// A session token signed with a secret lets the user who signed in back in
/// as long as it has not expired, and no one afterwards: decoded with the
/// same secret, a token carrying that user's name and the session's times
/// is accepted until one hour and the leeway after the session started.
pub proof fn lemma_session_window(
    users: Seq<User>,
    name: Seq<char>,
    password: Seq<char>,
    token: Seq<char>,
    secret: Seq<char>,
    start: int,
    later: int,
)
    requires
        authenticated_user(users, name, password) is Some,
        hs256_claims(token, secret) == Some(
            (authenticated_user(users, name, password)->0.name@, start + SESSION_SECONDS, start),
        ),
    ensures
        later <= start + SESSION_SECONDS + EXPIRY_LEEWAY_SECONDS ==> session_check(users, hs256_claims(token, secret), Some(later))
            == Ok::<User, AuthError>(authenticated_user(users, name, password)->0),
        later > start + SESSION_SECONDS + EXPIRY_LEEWAY_SECONDS ==> session_check(users, hs256_claims(token, secret), Some(later))
            == Err::<User, AuthError>(AuthError::InvalidToken),
{
    lemma_session_subject_resolves(users, name, password);
}

/// Who a session lets in, given the claims of its token (`None`: the token
/// did not check) and the time `now` read from the clock (`None`: it could
/// not be read).
pub fn check_session(config: &Configuration, claims: Option<TokenClaims>, now: Option<i64>) -> (r: Result<User, AuthError>)
    ensures
        r == session_check(config.users@, claims_view(claims), reading_view(now)),
{
    match claims {
        None => Err(AuthError::InvalidToken),
        Some(c) => match now {
            None => Err(AuthError::ClockUnavailable),
            Some(t) => {
                if (t as i128) <= (c.exp as i128) + (EXPIRY_LEEWAY_SECONDS as i128) {
                    resolve_claims(config, Some(c))
                } else {
                    Err(AuthError::InvalidToken)
                }
            },
        },
    }
}

/// Lets a request through to a signed-in page, given its `token` cookie and
/// its `Authorization` header: the user its session token names, or why not.
/// The token is checked against the configured secret, and its expiry
/// against the clock.
pub fn auth(config: &Configuration, cookie: Option<String>, authorization: Option<String>) -> (r: Result<User, AuthError>)
    ensures
        request_token_value(text_of(cookie), text_of(authorization)) is None ==> r == Err::<User, AuthError>(AuthError::NotLoggedIn),
        request_token_value(text_of(cookie), text_of(authorization)) matches Some(token) ==> exists|now: Option<int>|
            possible_reading(now) && r == #[trigger] session_check(
                config.users@,
                hs256_claims(token, config.jwt_secret@),
                now,
            ),
        request_token_value(text_of(cookie), text_of(authorization)) matches Some(token) ==> (
        hs256_claims(token, config.jwt_secret@) is None ==> r == Err::<User, AuthError>(AuthError::InvalidToken)),
        request_token_value(text_of(cookie), text_of(authorization)) matches Some(token) ==> (
        hs256_claims(token, config.jwt_secret@) is Some ==> exists|now: Option<i64>|
            #[trigger] clock_gives(now) && r == session_check(
                config.users@,
                hs256_claims(token, config.jwt_secret@),
                reading_view(now),
            )),
{
    let token = match request_token(cookie, authorization) {
        None => { return Err(AuthError::NotLoggedIn); },
        Some(t) => t,
    };
    let claims = match decode_hs256(token.as_str(), config.get_secret()) {
        Ok(c) => c,
        Err(_) => None,
    };
    let read_clock = current_timestamp;
    let now = match claims {
        None => None,
        Some(_) => read_clock(),
    };
    let r = check_session(config, claims, now);
    proof {
        if claims is Some {
            assert(clock_gives(now));
        }
        assert(possible_reading(reading_view(now)));
        assert(r == session_check(config.users@, hs256_claims(token@, config.jwt_secret@), reading_view(now)));
    }
    r
}

/// What `auth` answers for a request whose session token decodes, with the
/// configured secret, to a subject, an expiry and an issue time: the clock
/// is read during the call, and with that reading in seconds the token is
/// refused once more than the leeway past its expiry, else it lets in the
/// first configured user with the subject's name (refused when there is
/// none); a clock that cannot be read is answered as such.
pub proof fn lemma_auth_checks_expiry_at_the_clock(
    config: Configuration,
    cookie: Option<String>,
    authorization: Option<String>,
    r: Result<User, AuthError>,
    token: Seq<char>,
    sub: Seq<char>,
    exp: int,
    iat: int,
)
    requires
        call_ensures(auth, (&config, cookie, authorization), r),
        request_token_value(text_of(cookie), text_of(authorization)) == Some(token),
        hs256_claims(token, config.jwt_secret@) == Some((sub, exp, iat)),
    ensures
        exists|now: Option<i64>| #[trigger] clock_gives(now) && match now {
            Some(t) => if t > exp + EXPIRY_LEEWAY_SECONDS {
                r == Err::<User, AuthError>(AuthError::InvalidToken)
            } else {
                match find_user(config.users@, sub) {
                    Some(u) => r == Ok::<User, AuthError>(u),
                    None => r == Err::<User, AuthError>(AuthError::UnknownUser),
                }
            },
            None => r == Err::<User, AuthError>(AuthError::ClockUnavailable),
        },
{
}

} // verus!
