//! When the clients may use a stored user token, and when they must fetch a
//! new one.
use vstd::prelude::*;
use crate::types::time::{UtcTime, instant_lt};

verus! {

/// How long a fetched user token is used: 55 minutes (it is issued for an
/// hour).
pub const TOKEN_LIFETIME_SECS: i64 = 3300;

/// Lifetime, in seconds, asked for a user token.
pub const TOKEN_EXPIRATION_SECONDS: i32 = 3600;

/// Why no token could be used for an authenticated request.
#[derive(Debug, Clone, Copy, PartialEq, Eq, Structural)]
pub enum TokenError {
    /// The stored token has expired.
    Expired,
    /// No token is stored.
    NotAvailable,
}

impl TokenError {
    /// The human-readable text of the error.
    pub fn message(&self) -> (r: &'static str)
        ensures
            r@ == match self {
                TokenError::Expired => "token expired"@,
                TokenError::NotAvailable => "token not available"@,
            },
    {
        match self {
            TokenError::Expired => "token expired",
            TokenError::NotAvailable => "token not available",
        }
    }
}

/// The token of a REST client and when it expires.
#[derive(Debug, Clone)]
pub struct TokenSlot {
    pub token: Option<String>,
    pub expires_at: Option<UtcTime>,
}

impl TokenSlot {
    /// No token.
    pub fn new() -> (r: TokenSlot)
        ensures
            r.token is None && r.expires_at is None,
    {
        TokenSlot { token: None, expires_at: None }
    }

    /// Stores a token and its expiry.
    pub fn set_token(&mut self, token: String, expires_at: UtcTime)
        ensures
            final(self).token == Some(token),
            final(self).expires_at == Some(expires_at),
    {
        self.token = Some(token);
        self.expires_at = Some(expires_at);
    }

    /// The token to send at `now`: an error when none is stored, or when its
    /// expiry has passed.
    pub fn token(&self, now: UtcTime) -> (r: Result<&str, TokenError>)
        ensures
            match self.token {
                None => r == Err::<&str, TokenError>(TokenError::NotAvailable),
                Some(t) => match self.expires_at {
                    Some(exp) => if instant_lt(exp, now) {
                        r == Err::<&str, TokenError>(TokenError::Expired)
                    } else {
                        r matches Ok(s) && s@ == t@
                    },
                    None => r matches Ok(s) && s@ == t@,
                },
            },
    {
        match &self.token {
            Some(token) => {
                match self.expires_at {
                    Some(exp) => {
                        if now.is_after(&exp) {
                            return Err(TokenError::Expired);
                        }
                    },
                    None => {},
                }
                Ok(token.as_str())
            },
            None => Err(TokenError::NotAvailable),
        }
    }
}

/// When a token fetched at `now` stops being used.
pub fn token_expiry(now: UtcTime) -> (r: UtcTime)
    requires
        now.secs <= i64::MAX - TOKEN_LIFETIME_SECS,
    ensures
        r.secs == now.secs + TOKEN_LIFETIME_SECS,
        r.nanos == now.nanos,
{
    UtcTime { secs: now.secs + TOKEN_LIFETIME_SECS, nanos: now.nanos }
}

/// What to do when a user token is wanted.
#[derive(Debug, Clone, PartialEq, Eq)]
pub enum RefreshDecision {
    /// Use the stored token.
    UseStored(String),
    /// Fetch a new one with the API key and secret.
    Authenticate,
    /// A new one is needed but there is no API key.
    MissingApiKey,
    /// A new one is needed but there is no API secret.
    MissingSecret,
}

impl RefreshDecision {
    /// The human-readable text of a failed decision.
    pub fn message(&self) -> (r: &'static str)
        ensures
            r@ == match self {
                RefreshDecision::MissingApiKey => "no api_key provided"@,
                RefreshDecision::MissingSecret => "no secret provided"@,
                _ => ""@,
            },
    {
        match self {
            RefreshDecision::MissingApiKey => "no api_key provided",
            RefreshDecision::MissingSecret => "no secret provided",
            _ => "",
        }
    }
}

/// The stored token is reused unless a refresh is forced or it has expired
/// by `now`; otherwise a new one is fetched, which needs both the API key
/// and the secret.
pub fn refresh_decision(stored: Option<(&str, UtcTime)>, now: UtcTime, force: bool, has_api_key: bool, has_secret: bool) -> (r: RefreshDecision)
    ensures
        (stored matches Some((t, exp)) && !force && instant_lt(now, exp)) ==> (r matches RefreshDecision::UseStored(s)
            && s@ == stored.unwrap().0@),
        !(stored matches Some((t, exp)) && !force && instant_lt(now, exp)) ==> r == if !has_api_key {
            RefreshDecision::MissingApiKey
        } else if !has_secret {
            RefreshDecision::MissingSecret
        } else {
            RefreshDecision::Authenticate
        },
{
    match stored {
        Some((token, expires_at)) => {
            if !force && expires_at.is_after(&now) {
                return RefreshDecision::UseStored(String::from_str(token));
            }
        },
        None => {},
    }
    if !has_api_key {
        RefreshDecision::MissingApiKey
    } else if !has_secret {
        RefreshDecision::MissingSecret
    } else {
        RefreshDecision::Authenticate
    }
}

/// The stored token a new REST client gets at `now`: only one that has not
/// expired.
pub fn usable_token(stored: Option<(&str, UtcTime)>, now: UtcTime) -> (r: Option<(String, UtcTime)>)
    ensures
        match stored {
            Some((t, exp)) => if instant_lt(now, exp) {
                r matches Some((s, e)) && s@ == t@ && e == exp
            } else {
                r is None
            },
            None => r is None,
        },
{
    match stored {
        Some((token, expires_at)) => {
            if expires_at.is_after(&now) {
                Some((String::from_str(token), expires_at))
            } else {
                None
            }
        },
        None => None,
    }
}

/// A stored token that a new client takes at `now` (its expiry is still to
/// come) is one that client's slot then sends, and one a refresh that is not
/// forced reuses.
pub proof fn lemma_usable_token_is_sent(exp: UtcTime, now: UtcTime)
    requires
        instant_lt(now, exp),
    ensures
        !instant_lt(exp, now),
{
}

} // verus!
