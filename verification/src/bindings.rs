//! The specifications this crate assumes of code it does not verify: std's
//! string comparison and clock, and the outside crates that sign and check
//! session tokens (jsonwebtoken), format cookies (cookie) and convert
//! timestamps (chrono).
use vstd::prelude::*;
use crate::models::user::TokenClaims;

verus! {

/// `str == str` (std): true exactly when both strings hold the same
/// characters.  UTF-8 encodes each character sequence as one byte sequence,
/// so std's byte comparison decides character equality.
pub assume_specification[ <str as PartialEq>::eq ](a: &str, b: &str) -> (r: bool)
    ensures
        r == (a@ == b@),
;

/// The latest instant chrono can represent, `DateTime::<Utc>::MAX_UTC`
/// (the last second of year 262142), in seconds since the Unix epoch.
pub const LATEST_TIMESTAMP: i64 = 8210266876799;

/// `SystemTime::now().duration_since(UNIX_EPOCH)` (std): the time elapsed
/// since the Unix epoch as whole seconds and the nanoseconds of the last
/// second; `None` when the clock reads before the epoch.  The reading
/// depends on the machine's clock; the contract claims only what std
/// documents of every `Duration`: its sub-second part is under one second.
#[verifier::external_body]
pub(crate) fn clock_since_epoch() -> (r: Option<(u64, u32)>)
    ensures
        r matches Some((_, nanos)) ==> nanos < 1_000_000_000,
{
    let elapsed = std::time::SystemTime::now().duration_since(std::time::UNIX_EPOCH).ok();
    elapsed.map(|d| (d.as_secs(), d.subsec_nanos()))
}

/// `chrono::DateTime::from_timestamp(secs, nanos)` followed by `timestamp()`:
/// `None` when chrono cannot represent that instant, else the instant's
/// whole seconds, which are `secs` again (chrono documents that the two
/// round-trip).  Every instant from the epoch to `LATEST_TIMESTAMP` with
/// fewer than a billion nanoseconds can be represented; none later can.
#[verifier::external_body]
pub(crate) fn utc_timestamp(secs: i64, nanos: u32) -> (r: Option<i64>)
    ensures
        r matches Some(t) ==> t == secs && secs <= LATEST_TIMESTAMP,
        0 <= secs <= LATEST_TIMESTAMP && nanos < 1_000_000_000 ==> r is Some,
{
    chrono::DateTime::from_timestamp(secs, nanos).map(|t| t.timestamp())
}

/// `jsonwebtoken::errors::Error`, the error of signing or checking a token.
#[verifier::external_type_specification]
#[verifier::external_body]
pub struct ExJwtError(jsonwebtoken::errors::Error);

/// The token that `jsonwebtoken::encode` signs with the default header
/// (HS256), the claims `{sub, exp, iat}` (a JSON object) and an HMAC key
/// made of the bytes of `secret`.
pub uninterp spec fn hs256_token(sub: Seq<char>, exp: int, iat: int, secret: Seq<char>) -> Seq<char>;

/// The claims `(sub, exp, iat)` that `jsonwebtoken::decode` reads from
/// `token` when its header asks for HS256, its HMAC signature checks under
/// the bytes of `secret` and its payload holds a string `sub` and unsigned
/// integers `exp` and `iat`; `None` otherwise.  No clock takes part: the
/// expiry is checked by the caller.
pub uninterp spec fn hs256_claims(token: Seq<char>, secret: Seq<char>) -> Option<(Seq<char>, int, int)>;

/// Calls `jsonwebtoken::encode(&Header::default(), claims, &EncodingKey::from_secret(secret))`
/// on the claims as the JSON object `{"sub", "exp", "iat"}`.  For an HMAC key
/// and the default header (HS256) `encode` does not fail: the key family
/// matches the algorithm, a header and a map of strings and integers always
/// serialise, and HMAC signing returns `Ok`.  The token is the one
/// `hs256_token` names; decoding it with the same secret checks the HMAC it
/// was signed with and reads the same claims back.
#[verifier::external_body]
pub(crate) fn encode_hs256(claims: &TokenClaims, secret: &str) -> (r: Result<String, jsonwebtoken::errors::Error>)
    ensures
        r is Ok,
        r matches Ok(t) ==> t@ == hs256_token(claims.sub@, claims.exp as int, claims.iat as int, secret@),
        r matches Ok(t) ==> hs256_claims(t@, secret@) == Some((claims.sub@, claims.exp as int, claims.iat as int)),
{
    let mut payload = serde_json::Map::new();
    payload.insert("sub".to_owned(), serde_json::Value::from(claims.sub.as_str()));
    payload.insert("exp".to_owned(), serde_json::Value::from(claims.exp));
    payload.insert("iat".to_owned(), serde_json::Value::from(claims.iat));
    let key = jsonwebtoken::EncodingKey::from_secret(secret.as_bytes());
    jsonwebtoken::encode(&jsonwebtoken::Header::default(), &payload, &key)
}

/// Calls `jsonwebtoken::decode` with an HMAC key made of the bytes of
/// `secret` and the default validation (HS256, an `exp` claim required)
/// with its expiry check switched off, and reads the claims `sub`, `exp` and
/// `iat`: `Err` with jsonwebtoken's error when the token does not decode or
/// check, `Ok(None)` when a claim is missing or of another type.  With the
/// expiry check off, decoding reads no clock, and the claims are the ones
/// `hs256_claims` names.
#[verifier::external_body]
pub(crate) fn decode_hs256(token: &str, secret: &str) -> (r: Result<Option<TokenClaims>, jsonwebtoken::errors::Error>)
    ensures
        match r {
            Ok(Some(c)) => hs256_claims(token@, secret@) == Some((c.sub@, c.exp as int, c.iat as int)),
            _ => hs256_claims(token@, secret@) is None,
        },
{
    let key = jsonwebtoken::DecodingKey::from_secret(secret.as_bytes());
    let mut validation = jsonwebtoken::Validation::default();
    validation.validate_exp = false;
    let data = jsonwebtoken::decode::<serde_json::Value>(token, &key, &validation)?;
    let sub = data.claims.get("sub").and_then(|v| v.as_str()).map(|v| v.to_owned());
    let exp = data.claims.get("exp").and_then(|v| v.as_u64());
    let iat = data.claims.get("iat").and_then(|v| v.as_u64());
    Ok(sub.zip(exp).zip(iat).map(|((sub, exp), iat)| TokenClaims { sub, exp, iat }))
}

/// The `SameSite` attribute of a cookie.
#[derive(Debug)]
pub enum SameSitePolicy {
    Strict,
    Lax,
    Unrestricted,
}

/// How the `cookie` crate writes a `SameSite` attribute.
pub open spec fn same_site_text(same_site: SameSitePolicy) -> Seq<char> {
    match same_site {
        SameSitePolicy::Strict => "Strict"@,
        SameSitePolicy::Lax => "Lax"@,
        SameSitePolicy::Unrestricted => "None"@,
    }
}

/// The decimal digits of a natural number, most significant first.
pub open spec fn decimal_digits(n: nat) -> Seq<char>
    decreases n,
{
    if n < 10 {
        seq![((n + 48) as char)]
    } else {
        decimal_digits(n / 10).push(((n % 10) + 48) as char)
    }
}

/// An integer as `Display` writes it: a minus sign before a negative number.
pub open spec fn decimal(n: int) -> Seq<char> {
    if n < 0 {
        "-"@ + decimal_digits((-n) as nat)
    } else {
        decimal_digits(n as nat)
    }
}

/// The `Set-Cookie` line that the `cookie` crate writes (`Display` of a
/// `Cookie`) for a cookie built with this name, value, path, `Max-Age` in
/// hours, `SameSite` attribute and `HttpOnly` flag: `name=value`, then
/// `; HttpOnly` when set, `; SameSite=..` (with `; Secure` after `None`),
/// `; Path=..` and `; Max-Age=` with the age in seconds.
pub open spec fn set_cookie_line(
    name: Seq<char>,
    value: Seq<char>,
    path: Seq<char>,
    max_age_hours: int,
    same_site: SameSitePolicy,
    http_only: bool,
) -> Seq<char> {
    name + "="@ + value
        + (if http_only { "; HttpOnly"@ } else { Seq::empty() })
        + "; SameSite="@ + same_site_text(same_site)
        + (if same_site is Unrestricted { "; Secure"@ } else { Seq::empty() })
        + "; Path="@ + path
        + "; Max-Age="@ + decimal(max_age_hours * 3600)
}

/// Calls `cookie::Cookie::build(name, value)` with `.path`, `.max_age`
/// (`time::Duration::hours`), `.same_site` and `.http_only`, then `.finish()`
/// and `to_string()`, which writes the line `set_cookie_line` spells out
/// (the name and value as given, no domain, no expiry date, no `Secure`
/// flag but the one `SameSite=None` adds).  `Duration::hours` panics when
/// the hours overflow as seconds, which `requires` rules out.
#[verifier::external_body]
pub(crate) fn build_set_cookie(
    name: &str,
    value: &str,
    path: &str,
    max_age_hours: i64,
    same_site: SameSitePolicy,
    http_only: bool,
) -> (r: String)
    requires
        -(i64::MAX / 3600) <= max_age_hours <= i64::MAX / 3600,
    ensures
        r@ == set_cookie_line(name@, value@, path@, max_age_hours as int, same_site, http_only),
{
    let same_site = match same_site {
        SameSitePolicy::Strict => cookie::SameSite::Strict,
        SameSitePolicy::Lax => cookie::SameSite::Lax,
        SameSitePolicy::Unrestricted => cookie::SameSite::None,
    };
    let max_age = cookie::time::Duration::hours(max_age_hours);
    let builder = cookie::Cookie::build(name.to_owned(), value.to_owned()).path(path.to_owned());
    builder.max_age(max_age).same_site(same_site).http_only(http_only).finish().to_string()
}

} // verus!
