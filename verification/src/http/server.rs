use vstd::prelude::*;
use crate::models::config::Configuration;

verus! {

/// Which cross-origin requests the board accepts.
#[derive(Debug)]
pub struct CorsPolicy {
    /// The one origin allowed: the board's own URL.
    pub origin: String,
    /// The HTTP methods allowed.
    pub methods: Vec<String>,
    /// Whether requests may carry credentials (the session cookie).
    pub allow_credentials: bool,
    /// The request headers allowed.
    pub headers: Vec<String>,
}

/// The cross-origin policy of the board: its own URL may send `GET`, `POST`,
/// `PATCH` and `DELETE` requests with credentials and the `authorization`,
/// `accept` and `content-type` headers.
pub fn cors_policy(config: &Configuration) -> (p: CorsPolicy)
    ensures
        p.origin@ == config.url@,
        p.methods@.len() == 4,
        p.methods@[0]@ == "GET"@,
        p.methods@[1]@ == "POST"@,
        p.methods@[2]@ == "PATCH"@,
        p.methods@[3]@ == "DELETE"@,
        p.allow_credentials,
        p.headers@.len() == 3,
        p.headers@[0]@ == "authorization"@,
        p.headers@[1]@ == "accept"@,
        p.headers@[2]@ == "content-type"@,
{
    let mut methods: Vec<String> = Vec::new();
    methods.push("GET".to_owned());
    methods.push("POST".to_owned());
    methods.push("PATCH".to_owned());
    methods.push("DELETE".to_owned());
    let mut headers: Vec<String> = Vec::new();
    headers.push("authorization".to_owned());
    headers.push("accept".to_owned());
    headers.push("content-type".to_owned());
    CorsPolicy { origin: config.url.clone(), methods, allow_credentials: true, headers }
}

/// Where the board listens: every IPv4 interface, at the configured port.
pub fn listen_address(config: &Configuration) -> (r: ([u8; 4], u16))
    ensures
        r.0@ == seq![0u8, 0u8, 0u8, 0u8],
        r.1 == config.port,
{
    ([0, 0, 0, 0], config.port)
}

/// What the error page shows.
#[derive(Debug)]
pub struct ErrorPage {
    pub title: String,
    pub error_title: String,
    pub error_description: String,
}

/// The error page of the board, titled with the board's name, showing `description`.
pub fn error_page(config: &Configuration, description: &str) -> (p: ErrorPage)
    ensures
        p.title@ == config.board_name@,
        p.error_title@ == "Error"@,
        p.error_description@ == description@,
{
    ErrorPage {
        title: config.board_name.clone(),
        error_title: "Error".to_owned(),
        error_description: description.to_owned(),
    }
}

/// The title of the login page: the board's name.
pub fn login_page_title(config: &Configuration) -> (t: String)
    ensures
        t@ == config.board_name@,
{
    config.board_name.clone()
}

} // verus!
