use vstd::prelude::*;

verus! {

/// A user allowed to sign in to the board.
#[derive(Debug)]
pub struct User {
    pub name: String,
    pub hashed_password: String,
    pub active: bool,
}

impl Clone for User {
    fn clone(&self) -> (r: Self)
        ensures
            r == *self,
    {
        User { name: self.name.clone(), hashed_password: self.hashed_password.clone(), active: self.active }
    }
}

/// The credentials sent by the login form.
#[derive(Debug)]
pub struct UserSchema {
    pub name: String,
    pub password: String,
}

/// The claims carried by a session token: the user's name and the token's
/// issue and expiry times, in seconds since the Unix epoch.
#[derive(Debug)]
pub struct TokenClaims {
    pub sub: String,
    pub exp: u64,
    pub iat: u64,
}

} // verus!
