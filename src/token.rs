//! Credential tokens, their expiry policy and the fields read from a token
//! response or a cached token file.
use vstd::prelude::*;

verus! {

/// A token is only used while more than this many seconds remain before it
/// expires.
pub const SAFETY_MARGIN_SECS: u64 = 500;

/// A usable credential: the token text and its expiry in Unix seconds.
#[derive(Clone, Debug)]
pub struct Token {
    pub token: String,
    pub expiry: u64,
}

impl Token {
    /// A copy of this token.
    pub fn duplicate(&self) -> (r: Token)
        ensures
            r == *self,
    {
        Token { token: self.token.clone(), expiry: self.expiry }
    }
}

/// The fields read from a token response or a cached token file, each absent
/// when missing or of the wrong kind.
#[derive(Clone, Debug)]
pub struct TokenRecord {
    pub token: Option<String>,
    pub exp: Option<u64>,
}

/// Why a cached token could not be loaded.
#[derive(Clone, Copy, Debug, PartialEq, Eq, Structural)]
pub enum CacheError {
    /// There is no cached token at the location.
    NotFound,
    /// The cached file is unreadable or lacks its fields.
    Corrupt,
}

/// Why the expiry of a token could not be judged.
#[derive(Clone, Copy, Debug, PartialEq, Eq, Structural)]
pub enum TokenError {
    /// The token carries no expiry.
    MissingExpiry,
}

/// More than `margin` seconds remain between `now` and `expiry`.
pub open spec fn usable(expiry: int, now: int, margin: int) -> bool {
    expiry - now > margin
}

/// The token a record holds, when it has both fields.
pub open spec fn token_of(record: TokenRecord) -> Option<Token> {
    match (record.token, record.exp) {
        (Some(t), Some(e)) => Some(Token { token: t, expiry: e }),
        _ => None,
    }
}

/// A record holds a token that is still usable at `now`.
pub open spec fn record_usable(record: TokenRecord, now: u64) -> bool {
    match token_of(record) {
        Some(t) => usable(t.expiry as int, now as int, SAFETY_MARGIN_SECS as int),
        None => false,
    }
}

/// Whether a token expiring at `expiry` is still usable at `now` with
/// `margin` seconds to spare. An expiry in the past is never usable.
pub fn is_valid(expiry: u64, now: u64, margin: u64) -> (r: bool)
    ensures
        r == usable(expiry as int, now as int, margin as int),
{
    if expiry <= now {
        false
    } else {
        expiry - now > margin
    }
}

/// Judges a record's expiry against `now` with the safety margin.
pub fn check_token_expiry(record: &TokenRecord, now: u64) -> (r: Result<bool, TokenError>)
    ensures
        match record.exp {
            Some(e) => r == Ok::<bool, TokenError>(
                usable(e as int, now as int, SAFETY_MARGIN_SECS as int),
            ),
            None => r == Err::<bool, TokenError>(TokenError::MissingExpiry),
        },
{
    match record.exp {
        Some(e) => Ok(is_valid(e, now, SAFETY_MARGIN_SECS)),
        None => Err(TokenError::MissingExpiry),
    }
}

/// The token a record holds, or `None` when a field is missing.
pub fn token_from_record(record: &TokenRecord) -> (r: Option<Token>)
    ensures
        r == token_of(*record),
{
    match (&record.token, record.exp) {
        (Some(t), Some(e)) => Some(Token { token: t.clone(), expiry: e }),
        _ => None,
    }
}

} // verus!
