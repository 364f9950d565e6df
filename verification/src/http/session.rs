use vstd::prelude::*;
use crate::bindings::{
    build_set_cookie, encode_hs256, hs256_claims, hs256_token, set_cookie_line, SameSitePolicy,
    LATEST_TIMESTAMP,
};
use crate::clock::{clock_gives, current_timestamp};
use crate::http::auth::{lemma_session_window, possible_reading, reading_view, session_check, AuthError};
use crate::models::config::{find_user, Configuration};
use crate::models::user::{TokenClaims, User, UserSchema};
use vstd::string::to_string_from_display_ensures;

verus! {

/// How long a session lasts, in seconds: one hour.
pub const SESSION_SECONDS: i64 = 3600;
/// How long the session cookie lasts, in hours.
pub const SESSION_COOKIE_HOURS: i64 = 1;
/// The cookie that carries the session token.
pub const SESSION_COOKIE: &'static str = "token";
/// The path the session cookie applies to.
pub const SESSION_COOKIE_PATH: &'static str = "/";
/// The latest time at which a session can still be issued: its expiry must
/// be a time chrono can represent.
pub const LATEST_SESSION_START: i64 = LATEST_TIMESTAMP - SESSION_SECONDS;
/// The HTTP status of a refused login.
pub const BAD_REQUEST: u16 = 400;
/// The HTTP status of a token that could not be signed.
pub const INTERNAL_SERVER_ERROR: u16 = 500;
/// The HTTP status of the redirect after a successful login.
pub const SEE_OTHER: u16 = 303;

/// Why a login failed.
#[derive(Debug)]
pub enum LoginError {
    /// No user has that name, or its password is another.
    InvalidCredentials,
    /// The session token could not be signed; the signer's message.
    Encoding(String),
    /// The clock could not be read, or reads too late for a session to end
    /// at a time chrono can represent.
    Clock,
}

/// The message of a login error.
pub open spec fn login_error_message(e: LoginError) -> Seq<char> {
    match e {
        LoginError::InvalidCredentials => "Invalid name or password"@,
        LoginError::Encoding(m) => "Encoding JWT error: "@ + m@,
        LoginError::Clock => "The server cannot read the current time"@,
    }
}

impl LoginError {
    /// The HTTP status that answers this error.
    pub fn status_code(&self) -> (r: u16)
        ensures
            r == match self {
                LoginError::InvalidCredentials => BAD_REQUEST,
                LoginError::Encoding(_) | LoginError::Clock => INTERNAL_SERVER_ERROR,
            },
    {
        match self {
            LoginError::InvalidCredentials => BAD_REQUEST,
            LoginError::Encoding(_) | LoginError::Clock => INTERNAL_SERVER_ERROR,
        }
    }

    /// The `status` field of the JSON error body.
    pub fn status(&self) -> (r: String)
        ensures
            r@ == match self {
                LoginError::InvalidCredentials => "fail"@,
                LoginError::Encoding(_) | LoginError::Clock => "error"@,
            },
    {
        match self {
            LoginError::InvalidCredentials => "fail".to_owned(),
            LoginError::Encoding(_) | LoginError::Clock => "error".to_owned(),
        }
    }

    /// The `message` field of the JSON error body.
    pub fn message(&self) -> (r: String)
        ensures
            r@ == login_error_message(*self),
    {
        match self {
            LoginError::InvalidCredentials => "Invalid name or password".to_owned(),
            LoginError::Encoding(m) => "Encoding JWT error: ".to_owned().concat(m.as_str()),
            LoginError::Clock => "The server cannot read the current time".to_owned(),
        }
    }
}

/// The user these credentials sign in: the first user with that name, when
/// its password is the one given.
pub open spec fn authenticated_user(users: Seq<User>, name: Seq<char>, password: Seq<char>) -> Option<User> {
    match find_user(users, name) {
        Some(u) => if u.hashed_password@ == password {
            Some(u)
        } else {
            None
        },
        None => None,
    }
}

/// The token a session started at `now` carries for `user`, signed with `secret`.
pub open spec fn session_token(user: User, secret: Seq<char>, now: int) -> Seq<char> {
    hs256_token(user.name@, now + SESSION_SECONDS, now, secret)
}

/// Checks the credentials of a login form.
pub fn check_credentials(config: &Configuration, body: &UserSchema) -> (r: Result<User, LoginError>)
    ensures
        match authenticated_user(config.users@, body.name@, body.password@) {
            Some(u) => r == Ok::<User, LoginError>(u),
            None => r matches Err(LoginError::InvalidCredentials),
        },
{
    match config.get_user(body.name.as_str()) {
        None => Err(LoginError::InvalidCredentials),
        Some(user) => {
            if user.hashed_password == body.password {
                Ok(user)
            } else {
                Err(LoginError::InvalidCredentials)
            }
        },
    }
}

/// What a login answers once the token was signed: the token, or an
/// encoding error carrying the text of the signer's error.
pub fn finish_token(signed: Result<String, jsonwebtoken::errors::Error>) -> (r: Result<String, LoginError>)
    ensures
        match signed {
            Ok(t) => r matches Ok(token) && token@ == t@,
            Err(e) => r matches Err(LoginError::Encoding(m)) && to_string_from_display_ensures(&e, m),
        },
{
    match signed {
        Ok(token) => Ok(token),
        Err(e) => Err(LoginError::Encoding(e.to_string())),
    }
}

/// `r` is the token of a session that `user` starts at `now`, signed with
/// `secret`: it carries the user's name, `now` as its issue time and one
/// hour later as its expiry, and decoding it with `secret` gives these back.
pub open spec fn signs_session(r: Result<String, LoginError>, user: User, secret: Seq<char>, now: int) -> bool {
    r matches Ok(t) && t@ == session_token(user, secret, now) && hs256_claims(t@, secret) == Some(
        (user.name@, now + SESSION_SECONDS, now),
    )
}

/// Signs the token of a session that `user` starts at `now` (seconds since
/// the Unix epoch): it names the user and expires one hour later.
pub fn sign_session(user: &User, secret: &str, now: i64) -> (r: Result<String, LoginError>)
    requires
        0 <= now <= LATEST_SESSION_START,
    ensures
        signs_session(r, *user, secret@, now as int),
{
    let claims = TokenClaims { sub: user.name.clone(), exp: (now + SESSION_SECONDS) as u64, iat: now as u64 };
    finish_token(encode_hs256(&claims, secret))
}

/// The token a login form obtains when the session starts at `now`.
pub fn issue_token(config: &Configuration, body: &UserSchema, now: i64) -> (r: Result<String, LoginError>)
    requires
        0 <= now <= LATEST_SESSION_START,
    ensures
        match authenticated_user(config.users@, body.name@, body.password@) {
            Some(u) => signs_session(r, u, config.jwt_secret@, now as int),
            None => r matches Err(LoginError::InvalidCredentials),
        },
{
    match check_credentials(config, body) {
        Err(e) => Err(e),
        Ok(user) => sign_session(&user, config.get_secret(), now),
    }
}

/// `r` answers a session that `user` starts at the clock reading `now`: its
/// signed token when a session starting then ends at a time chrono can
/// represent, else a clock error (as when the clock could not be read).
pub open spec fn answers_reading(r: Result<String, LoginError>, user: User, secret: Seq<char>, now: Option<int>) -> bool {
    match now {
        Some(t) => if 0 <= t <= LATEST_SESSION_START {
            signs_session(r, user, secret, t)
        } else {
            r matches Err(LoginError::Clock)
        },
        None => r matches Err(LoginError::Clock),
    }
}

/// Signs the token of a session that `user` starts at the clock reading
/// `now` (`None`: the clock could not be read).
pub fn sign_session_at(user: &User, secret: &str, now: Option<i64>) -> (r: Result<String, LoginError>)
    ensures
        answers_reading(r, *user, secret@, reading_view(now)),
{
    match now {
        Some(t) => {
            if 0 <= t && t <= LATEST_SESSION_START {
                sign_session(user, secret, t)
            } else {
                Err(LoginError::Clock)
            }
        },
        None => Err(LoginError::Clock),
    }
}

/// `r` is an answer a login form can obtain: the credentials are refused,
/// or the session started at some clock reading `now` that
/// `current_timestamp` can give, and `r` answers that reading.
pub open spec fn obtainable_token(config: Configuration, body: UserSchema, r: Result<String, LoginError>) -> bool {
    match authenticated_user(config.users@, body.name@, body.password@) {
        Some(u) => exists|now: Option<int>|
            possible_reading(now) && #[trigger] answers_reading(r, u, config.jwt_secret@, now),
        None => r matches Err(LoginError::InvalidCredentials),
    }
}

/// `r` is what a login form obtains when the clock is read during the call:
/// the credentials are refused, or the session starts at the reading the
/// clock gave then, and `r` answers that reading.
pub open spec fn obtained_at_the_clock(config: Configuration, body: UserSchema, r: Result<String, LoginError>) -> bool {
    match authenticated_user(config.users@, body.name@, body.password@) {
        Some(u) => exists|now: Option<i64>|
            #[trigger] clock_gives(now) && answers_reading(r, u, config.jwt_secret@, reading_view(now)),
        None => r matches Err(LoginError::InvalidCredentials),
    }
}

/// A login answered at a clock reading `now` within chrono's range (ending
/// an hour before its last instant) obtains a token that, decoded with the
/// configured secret, carries the signed-in user's name, `now` as its issue
/// time and `now` plus one hour as its expiry.
pub proof fn lemma_login_token_carries_the_session(
    config: Configuration,
    body: UserSchema,
    r: Result<String, LoginError>,
    now: int,
)
    requires
        authenticated_user(config.users@, body.name@, body.password@) is Some,
        answers_reading(r, authenticated_user(config.users@, body.name@, body.password@)->0, config.jwt_secret@, Some(now)),
        0 <= now <= LATEST_SESSION_START,
    ensures
        r matches Ok(t) && hs256_claims(t@, config.jwt_secret@) == Some(
            (authenticated_user(config.users@, body.name@, body.password@)->0.name@, now + SESSION_SECONDS, now),
        ),
{
}

/// The token a login form obtains now: the credentials are checked, then
/// the session starts at the current time.
pub fn get_token(config: &Configuration, body: UserSchema) -> (r: Result<String, LoginError>)
    ensures
        obtainable_token(*config, body, r),
        obtained_at_the_clock(*config, body, r),
{
    match check_credentials(config, &body) {
        Err(e) => Err(e),
        Ok(user) => {
            let read_clock = current_timestamp;
            let now = read_clock();
            let r = sign_session_at(&user, config.get_secret(), now);
            proof {
                assert(clock_gives(now));
                assert(possible_reading(reading_view(now)));
            }
            r
        },
    }
}

/// The `Set-Cookie` line of a session cookie holding `token`.
pub open spec fn session_cookie_line(token: Seq<char>) -> Seq<char> {
    set_cookie_line(
        SESSION_COOKIE@,
        token,
        SESSION_COOKIE_PATH@,
        SESSION_COOKIE_HOURS as int,
        SameSitePolicy::Lax,
        true,
    )
}

/// The session cookie that carries `token`: path `/`, one hour, `SameSite=Lax`, `HttpOnly`.
pub fn session_cookie(token: &str) -> (r: String)
    ensures
        r@ == session_cookie_line(token@),
{
    build_set_cookie(SESSION_COOKIE, token, SESSION_COOKIE_PATH, SESSION_COOKIE_HOURS, SameSitePolicy::Lax, true)
}

/// What the login form is answered.
#[derive(Debug)]
pub enum LoginResponse {
    /// Signed in: redirect with this status to `location`, setting this cookie.
    Redirect { status: u16, location: String, set_cookie: String },
    /// Refused: show the error page with this description.
    ErrorPage { description: String },
}

/// `r` answers the login form when obtaining the token answered `answer`:
/// a redirect to `/` that sets the session cookie, or the error page with
/// the error's message.
pub open spec fn responds_to(answer: Result<String, LoginError>, r: LoginResponse) -> bool {
    match answer {
        Ok(token) => r matches LoginResponse::Redirect { status, location, set_cookie } && status
            == SEE_OTHER && location@ == "/"@ && set_cookie@ == session_cookie_line(token@),
        Err(e) => r matches LoginResponse::ErrorPage { description } && description@
            == login_error_message(e),
    }
}

/// What the login form is answered, given what obtaining the token answered.
pub fn login_response(answer: Result<String, LoginError>) -> (r: LoginResponse)
    ensures
        responds_to(answer, r),
{
    match answer {
        Ok(token) => LoginResponse::Redirect {
            status: SEE_OTHER,
            location: "/".to_owned(),
            set_cookie: session_cookie(token.as_str()),
        },
        Err(e) => LoginResponse::ErrorPage { description: e.message() },
    }
}

/// Answers a login form: signs the user in with a session cookie, or shows
/// why it could not.
pub fn do_login(config: &Configuration, user_data: UserSchema) -> (r: LoginResponse)
    ensures
        exists|answer: Result<String, LoginError>|
            obtainable_token(*config, user_data, answer) && #[trigger] responds_to(answer, r),
        exists|answer: Result<String, LoginError>|
            obtained_at_the_clock(*config, user_data, answer) && #[trigger] responds_to(answer, r),
{
    let answer = get_token(config, user_data);
    login_response(answer)
}

/// What logging out answers: a cookie that clears the session, and a JSON body.
#[derive(Debug)]
pub struct LogoutReply {
    pub set_cookie: String,
    pub body: String,
}

/// Logs out: the session cookie is replaced by an empty one that has already expired.
pub fn logout() -> (r: LogoutReply)
    ensures
        r.set_cookie@ == set_cookie_line(SESSION_COOKIE@, ""@, SESSION_COOKIE_PATH@, -1, SameSitePolicy::Lax, true),
        r.body@ == "{\"status\":\"success\"}"@,
{
    LogoutReply {
        set_cookie: build_set_cookie(SESSION_COOKIE, "", SESSION_COOKIE_PATH, -1, SameSitePolicy::Lax, true),
        body: "{\"status\":\"success\"}".to_owned(),
    }
}

/// What `get_token` answers: refused credentials are refused; otherwise the
/// clock is read during the call and, when a session starting at that
/// reading (in seconds) ends within chrono's range, the answer is a token
/// that, decoded with the configured secret, names the user, was issued at
/// the reading and expires one hour later; any other reading is a clock
/// error.
pub proof fn lemma_get_token_starts_the_session_at_the_clock(
    config: Configuration,
    body: UserSchema,
    r: Result<String, LoginError>,
)
    requires
        call_ensures(get_token, (&config, body), r),
    ensures
        authenticated_user(config.users@, body.name@, body.password@) is None ==> r matches Err(
            LoginError::InvalidCredentials,
        ),
        authenticated_user(config.users@, body.name@, body.password@) matches Some(u) ==> exists|now: Option<i64>|
            #[trigger] clock_gives(now) && match now {
                Some(t) => if 0 <= t <= LATEST_SESSION_START {
                    r matches Ok(token) && hs256_claims(token@, config.jwt_secret@) == Some(
                        (u.name@, t + SESSION_SECONDS, t as int),
                    )
                } else {
                    r matches Err(LoginError::Clock)
                },
                None => r matches Err(LoginError::Clock),
            },
{
}

/// What `do_login` answers: refused credentials show the error page saying
/// so; otherwise the clock is read during the call and, at a reading within
/// range, the answer redirects to `/` with a session cookie holding a token
/// that names the user, was issued at that reading, expires one hour later,
/// and lets the same user in when checked at that reading; at any other
/// reading the error page reports the clock.
pub proof fn lemma_do_login_answers_at_the_clock(config: Configuration, body: UserSchema, r: LoginResponse)
    requires
        call_ensures(do_login, (&config, body), r),
    ensures
        authenticated_user(config.users@, body.name@, body.password@) is None ==> (r matches LoginResponse::ErrorPage {
            description,
        } && description@ == login_error_message(LoginError::InvalidCredentials)),
        authenticated_user(config.users@, body.name@, body.password@) matches Some(u) ==> exists|now: Option<i64>|
            #[trigger] clock_gives(now) && match now {
                Some(t) => if 0 <= t <= LATEST_SESSION_START {
                    r matches LoginResponse::Redirect { status, location, set_cookie } && status == SEE_OTHER
                        && location@ == "/"@ && exists|token: Seq<char>|
                        set_cookie@ == #[trigger] session_cookie_line(token) && hs256_claims(token, config.jwt_secret@)
                            == Some((u.name@, t + SESSION_SECONDS, t as int)) && session_check(
                            config.users@,
                            hs256_claims(token, config.jwt_secret@),
                            Some(t as int),
                        ) == Ok::<User, AuthError>(u)
                } else {
                    r matches LoginResponse::ErrorPage { description } && description@ == login_error_message(
                        LoginError::Clock,
                    )
                },
                None => r matches LoginResponse::ErrorPage { description } && description@ == login_error_message(
                    LoginError::Clock,
                ),
            },
{
    let answer = choose|answer: Result<String, LoginError>|
        obtained_at_the_clock(config, body, answer) && #[trigger] responds_to(answer, r);
    if let Some(u) = authenticated_user(config.users@, body.name@, body.password@) {
        let now = choose|now: Option<i64>|
            #[trigger] clock_gives(now) && answers_reading(answer, u, config.jwt_secret@, reading_view(now));
        if let Some(t) = now {
            if 0 <= t <= LATEST_SESSION_START {
                let token = answer->Ok_0@;
                lemma_session_window(config.users@, body.name@, body.password@, token, config.jwt_secret@, t as int, t as int);
                assert(session_cookie_line(token) == r->set_cookie@);
            }
        }
    }
}

} // verus!
