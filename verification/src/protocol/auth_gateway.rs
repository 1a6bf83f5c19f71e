//! Requests of the authentication gateway.
use vstd::prelude::*;

verus! {

/// Asks for a user token with a user name and password.
#[derive(Debug, Clone)]
pub struct GetUserTokenRequest {
    pub username: String,
    pub password: String,
    pub expiration_seconds: i32,
}

/// A user token.
#[derive(Debug, Clone)]
pub struct GetUserTokenResponse {
    pub token: String,
}

} // verus!
