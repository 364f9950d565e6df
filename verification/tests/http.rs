use board::bindings::{SameSitePolicy, LATEST_TIMESTAMP};
use board::events::{docker_event_action, EventAction};
use board::clock::{current_timestamp, timestamp_from_reading};
use board::http::auth::{
    auth, bearer_token, check_session, request_token, resolve_claims, AuthError, ErrorResponse,
    EXPIRY_LEEWAY_SECONDS,
};
use board::http::server::{cors_policy, error_page, listen_address, login_page_title};
use board::http::chat::{chat_line, joined_message, left_message};
use board::http::session::{
    check_credentials, do_login, finish_token, get_token, issue_token, login_response, logout,
    session_cookie, sign_session, sign_session_at, LoginError, LoginResponse, SESSION_SECONDS,
};
use board::{Category, Configuration, TokenClaims, User, UserSchema};

fn user(name: &str, password: &str) -> User {
    User { name: name.to_string(), hashed_password: password.to_string(), active: true }
}

fn config() -> Configuration {
    Configuration {
        url: "http://localhost:6969".to_string(),
        port: 6969,
        log_level: "info".to_string(),
        jwt_secret: "s3cret".to_string(),
        jwt_expires_in: "60m".to_string(),
        jwt_maxage: 60,
        board_name: "Board".to_string(),
        users: vec![user("ana", "pw1"), user("bob", "pw2")],
        categories: Vec::<Category>::new(),
        docker_uri: None,
    }
}

fn form(name: &str, password: &str) -> UserSchema {
    UserSchema { name: name.to_string(), password: password.to_string() }
}

#[test]
fn latest_timestamp_is_chronos_latest_instant() {
    assert_eq!(chrono::DateTime::<chrono::Utc>::MAX_UTC.timestamp(), LATEST_TIMESTAMP);
}

#[test]
fn bearer_token_takes_what_follows_the_scheme() {
    assert_eq!(bearer_token("Bearer abc.def"), Some("abc.def".to_string()));
    assert_eq!(bearer_token("Bearer "), Some(String::new()));
    assert_eq!(bearer_token("bearer abc"), None);
    assert_eq!(bearer_token("Basic abc"), None);
    assert_eq!(bearer_token("Bearer"), None);
    assert_eq!(bearer_token(""), None);
}

#[test]
fn request_token_prefers_the_cookie() {
    assert_eq!(request_token(Some("c".to_string()), Some("Bearer h".to_string())), Some("c".to_string()));
    assert_eq!(request_token(None, Some("Bearer h".to_string())), Some("h".to_string()));
    assert_eq!(request_token(None, Some("Token h".to_string())), None);
    assert_eq!(request_token(None, None), None);
}

#[test]
fn auth_error_messages() {
    assert_eq!(AuthError::NotLoggedIn.message(), "You are not logged. Please <a href='/login'>log in</a>");
    assert_eq!(AuthError::InvalidToken.message(), "Invalid token. Please <a href='/login'>log in</a>");
    assert_eq!(
        AuthError::UnknownUser.message(),
        "The user belonging to this token no longer exists. Please <a href='/login'>log in</a>"
    );
    assert_eq!(
        AuthError::ClockUnavailable.message(),
        "The server cannot read the current time. Please try again later"
    );
    let e = ErrorResponse { status: "fail", message: "m" };
    assert_eq!(e.status, "fail");
}

#[test]
fn resolve_claims_finds_the_user() {
    let c = config();
    let claims = TokenClaims { sub: "bob".to_string(), exp: 10, iat: 0 };
    assert_eq!(resolve_claims(&c, Some(claims)).unwrap().hashed_password, "pw2");
    let gone = TokenClaims { sub: "zoe".to_string(), exp: 10, iat: 0 };
    assert!(matches!(resolve_claims(&c, Some(gone)), Err(AuthError::UnknownUser)));
    assert!(matches!(resolve_claims(&c, None), Err(AuthError::InvalidToken)));
}

#[test]
fn auth_without_token_is_not_logged_in() {
    assert!(matches!(auth(&config(), None, None), Err(AuthError::NotLoggedIn)));
    assert!(matches!(auth(&config(), None, Some("Basic x".to_string())), Err(AuthError::NotLoggedIn)));
}

#[test]
fn auth_with_a_forged_token_is_refused() {
    assert!(matches!(auth(&config(), Some("not.a.token".to_string()), None), Err(AuthError::InvalidToken)));
    let mut other = config();
    other.jwt_secret = "another".to_string();
    let token = get_token(&other, form("ana", "pw1")).unwrap();
    assert!(matches!(auth(&config(), Some(token), None), Err(AuthError::InvalidToken)));
}

#[test]
fn login_then_auth_lets_the_same_user_in() {
    let c = config();
    let token = get_token(&c, form("bob", "pw2")).unwrap();
    let by_cookie = auth(&c, Some(token.clone()), None).unwrap();
    assert_eq!(by_cookie.name, "bob");
    let by_header = auth(&c, None, Some(format!("Bearer {}", token))).unwrap();
    assert_eq!(by_header.name, "bob");
}

#[test]
fn token_of_a_removed_user_names_no_one() {
    let c = config();
    let token = get_token(&c, form("bob", "pw2")).unwrap();
    let mut without_bob = config();
    without_bob.users.retain(|u| u.name != "bob");
    assert!(matches!(auth(&without_bob, Some(token), None), Err(AuthError::UnknownUser)));
}

#[test]
fn expired_token_is_refused() {
    let c = config();
    let token = issue_token(&c, &form("ana", "pw1"), 1_000_000).unwrap();
    assert!(matches!(auth(&c, Some(token), None), Err(AuthError::InvalidToken)));
}

#[test]
fn check_credentials_refuses_alike() {
    let c = config();
    assert_eq!(check_credentials(&c, &form("ana", "pw1")).unwrap().name, "ana");
    assert!(matches!(check_credentials(&c, &form("ana", "pw2")), Err(LoginError::InvalidCredentials)));
    assert!(matches!(check_credentials(&c, &form("zoe", "pw1")), Err(LoginError::InvalidCredentials)));
}

#[test]
fn issued_token_is_an_hs256_jwt_of_the_user() {
    let c = config();
    let token = issue_token(&c, &form("ana", "pw1"), 1_700_000_000).unwrap();
    assert_eq!(token.split('.').count(), 3);
    let mut validation = jsonwebtoken::Validation::default();
    validation.validate_exp = false;
    let data = jsonwebtoken::decode::<serde_json::Value>(
        &token,
        &jsonwebtoken::DecodingKey::from_secret(b"s3cret"),
        &validation,
    )
    .unwrap();
    assert_eq!(data.header.alg, jsonwebtoken::Algorithm::HS256);
    assert_eq!(data.claims["sub"], "ana");
    assert_eq!(data.claims["iat"], 1_700_000_000u64);
    assert_eq!(data.claims["exp"], 1_700_003_600u64);
    // Signing depends on the claims and the secret alone.
    assert_eq!(issue_token(&c, &form("ana", "pw1"), 1_700_000_000).unwrap(), token);
    assert_ne!(issue_token(&c, &form("ana", "pw1"), 1_700_000_001).unwrap(), token);
}

#[test]
fn sign_session_names_the_user() {
    let token = sign_session(&user("eve", "x"), "k", 5).unwrap();
    let mut validation = jsonwebtoken::Validation::default();
    validation.validate_exp = false;
    let data =
        jsonwebtoken::decode::<serde_json::Value>(&token, &jsonwebtoken::DecodingKey::from_secret(b"k"), &validation)
            .unwrap();
    assert_eq!(data.claims["sub"], "eve");
    assert_eq!(data.claims["exp"], 3605u64);
}

#[test]
fn issue_token_refuses_bad_credentials() {
    let c = config();
    assert!(matches!(issue_token(&c, &form("ana", "nope"), 0), Err(LoginError::InvalidCredentials)));
    assert!(matches!(get_token(&c, form("nobody", "pw1")), Err(LoginError::InvalidCredentials)));
}

#[test]
fn finish_token_maps_the_signer_error() {
    assert_eq!(finish_token(Ok("t".to_string())).unwrap(), "t");
    let error = jsonwebtoken::errors::Error::from(jsonwebtoken::errors::ErrorKind::InvalidKeyFormat);
    match finish_token(Err(error)) {
        Err(LoginError::Encoding(m)) => assert_eq!(m, "InvalidKeyFormat"),
        _ => panic!("expected an encoding error"),
    }
}

#[test]
fn login_error_statuses_and_messages() {
    let e = LoginError::InvalidCredentials;
    assert_eq!(e.status_code(), 400);
    assert_eq!(e.status(), "fail");
    assert_eq!(e.message(), "Invalid name or password");
    let e = LoginError::Clock;
    assert_eq!(e.status_code(), 500);
    assert_eq!(e.status(), "error");
    assert_eq!(e.message(), "The server cannot read the current time");
    let e = LoginError::Encoding("InvalidKeyFormat".to_string());
    assert_eq!(e.status_code(), 500);
    assert_eq!(e.status(), "error");
    assert_eq!(e.message(), "Encoding JWT error: InvalidKeyFormat");
}

#[test]
fn session_cookie_is_the_set_cookie_line() {
    assert_eq!(session_cookie("abc"), "token=abc; HttpOnly; SameSite=Lax; Path=/; Max-Age=3600");
}

#[test]
fn login_response_redirects_with_the_cookie() {
    match login_response(Ok("abc".to_string())) {
        LoginResponse::Redirect { status, location, set_cookie } => {
            assert_eq!(status, 303);
            assert_eq!(location, "/");
            assert_eq!(set_cookie, "token=abc; HttpOnly; SameSite=Lax; Path=/; Max-Age=3600");
        }
        _ => panic!("expected a redirect"),
    }
    match login_response(Err(LoginError::InvalidCredentials)) {
        LoginResponse::ErrorPage { description } => assert_eq!(description, "Invalid name or password"),
        _ => panic!("expected an error page"),
    }
}

#[test]
fn do_login_signs_in_or_explains() {
    let c = config();
    match do_login(&c, form("ana", "pw1")) {
        LoginResponse::Redirect { set_cookie, .. } => {
            assert!(set_cookie.starts_with("token="));
            assert!(set_cookie.ends_with("; HttpOnly; SameSite=Lax; Path=/; Max-Age=3600"));
        }
        _ => panic!("expected a redirect"),
    }
    match do_login(&c, form("ana", "bad")) {
        LoginResponse::ErrorPage { description } => assert_eq!(description, "Invalid name or password"),
        _ => panic!("expected an error page"),
    }
}

#[test]
fn logout_clears_the_session() {
    let r = logout();
    assert_eq!(r.set_cookie, "token=; HttpOnly; SameSite=Lax; Path=/; Max-Age=-3600");
    assert_eq!(r.body, "{\"status\":\"success\"}");
    let _ = SameSitePolicy::Strict;
}

#[test]
fn chat_messages() {
    assert_eq!(joined_message("ana"), "ana joined.");
    assert_eq!(left_message("ana"), "ana left.");
    assert_eq!(chat_line("ana", "hi there"), "ana: hi there");
    assert_eq!(joined_message(""), " joined.");
}

#[test]
fn docker_events_are_broadcast_or_reported() {
    match docker_event_action(Ok("EventMessage { .. }".to_string())) {
        EventAction::Broadcast(m) => assert_eq!(m, "Message: EventMessage { .. }"),
        _ => panic!("expected a broadcast"),
    }
    match docker_event_action(Err("connection refused".to_string())) {
        EventAction::Report(m) => assert_eq!(m, "Error: connection refused"),
        _ => panic!("expected a report"),
    }
}

#[test]
fn server_policy_and_pages() {
    let c = config();
    let p = cors_policy(&c);
    assert_eq!(p.origin, "http://localhost:6969");
    assert_eq!(p.methods, vec!["GET", "POST", "PATCH", "DELETE"]);
    assert!(p.allow_credentials);
    assert_eq!(p.headers, vec!["authorization", "accept", "content-type"]);
    assert_eq!(listen_address(&c), ([0, 0, 0, 0], 6969));
    let e = error_page(&c, "Invalid name or password");
    assert_eq!(e.title, "Board");
    assert_eq!(e.error_title, "Error");
    assert_eq!(e.error_description, "Invalid name or password");
    assert_eq!(login_page_title(&c), "Board");
}

fn decoded_claims(token: &str, secret: &[u8]) -> TokenClaims {
    let mut validation = jsonwebtoken::Validation::default();
    validation.validate_exp = false;
    let data =
        jsonwebtoken::decode::<serde_json::Value>(token, &jsonwebtoken::DecodingKey::from_secret(secret), &validation)
            .unwrap();
    TokenClaims {
        sub: data.claims["sub"].as_str().unwrap().to_string(),
        exp: data.claims["exp"].as_u64().unwrap(),
        iat: data.claims["iat"].as_u64().unwrap(),
    }
}

#[test]
fn the_clock_reads_a_time_after_the_epoch() {
    let now = current_timestamp().unwrap();
    assert!(now > 1_600_000_000);
    assert!(now <= LATEST_TIMESTAMP);
}

#[test]
fn check_session_applies_the_expiry_and_the_leeway() {
    let c = config();
    let claims = || TokenClaims { sub: "bob".to_string(), exp: 1_000, iat: 0 };
    assert_eq!(check_session(&c, Some(claims()), Some(0)).unwrap().name, "bob");
    assert_eq!(check_session(&c, Some(claims()), Some(1_060)).unwrap().name, "bob");
    assert!(matches!(check_session(&c, Some(claims()), Some(1_061)), Err(AuthError::InvalidToken)));
    assert!(matches!(check_session(&c, Some(claims()), None), Err(AuthError::ClockUnavailable)));
    assert!(matches!(check_session(&c, None, Some(0)), Err(AuthError::InvalidToken)));
    assert!(matches!(check_session(&c, None, None), Err(AuthError::InvalidToken)));
    let gone = TokenClaims { sub: "zoe".to_string(), exp: 1_000, iat: 0 };
    assert!(matches!(check_session(&c, Some(gone), Some(5)), Err(AuthError::UnknownUser)));
    assert_eq!(EXPIRY_LEEWAY_SECONDS, 60);
}

#[test]
fn an_issued_session_lasts_an_hour_and_the_leeway() {
    let c = config();
    let start: i64 = 1_700_000_000;
    let token = issue_token(&c, &form("ana", "pw1"), start).unwrap();
    let last = start + SESSION_SECONDS + EXPIRY_LEEWAY_SECONDS as i64;
    let within = check_session(&c, Some(decoded_claims(&token, b"s3cret")), Some(last));
    assert_eq!(within.unwrap().name, "ana");
    let after = check_session(&c, Some(decoded_claims(&token, b"s3cret")), Some(last + 1));
    assert!(matches!(after, Err(AuthError::InvalidToken)));
}

#[test]
fn sign_session_at_needs_a_usable_reading() {
    let u = user("eve", "x");
    assert!(matches!(sign_session_at(&u, "k", None), Err(LoginError::Clock)));
    assert!(matches!(sign_session_at(&u, "k", Some(-1)), Err(LoginError::Clock)));
    assert!(matches!(sign_session_at(&u, "k", Some(LATEST_TIMESTAMP)), Err(LoginError::Clock)));
    let last_start = LATEST_TIMESTAMP - SESSION_SECONDS;
    assert_eq!(sign_session_at(&u, "k", Some(last_start)).unwrap(), sign_session(&u, "k", last_start).unwrap());
    assert_eq!(sign_session_at(&u, "k", Some(5)).unwrap(), sign_session(&u, "k", 5).unwrap());
    let claims = decoded_claims(&sign_session_at(&u, "k", Some(5)).unwrap(), b"k");
    assert_eq!((claims.sub.as_str(), claims.exp, claims.iat), ("eve", 3605, 5));
}


#[test]
fn timestamp_from_reading_keeps_the_seconds_within_chronos_range() {
    assert_eq!(timestamp_from_reading(None), None);
    assert_eq!(timestamp_from_reading(Some((5, 0))), Some(5));
    assert_eq!(timestamp_from_reading(Some((1_700_000_000, 999_999_999))), Some(1_700_000_000));
    let latest = LATEST_TIMESTAMP as u64;
    assert_eq!(timestamp_from_reading(Some((latest, 999_999_999))), Some(LATEST_TIMESTAMP));
    assert_eq!(timestamp_from_reading(Some((latest + 1, 0))), None);
    assert_eq!(timestamp_from_reading(Some((u64::MAX, 0))), None);
}
