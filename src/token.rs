//! Access by token: the token that a request or a subscription carries,
//! and the check that guards the subscription.

use vstd::prelude::*;

use crate::text::str_eq;

verus! {

/// The token that came with a request.
pub struct Token(pub String);

/// The one token that the subscription admits.
pub open spec fn admitted_token() -> Seq<char> {
    "123456"@
}

/// Why a subscription was refused.
#[derive(PartialEq, Eq, Structural, Copy, Clone, Debug)]
pub enum TokenError {
    /// No token came with the request.
    Missing,
    /// The token is not the admitted one.
    Forbidden,
}

/// Why a connection could not start.
#[derive(PartialEq, Eq, Structural, Copy, Clone, Debug)]
pub enum ConnectionError {
    /// The connection parameters hold no token.
    TokenRequired,
}

/// The token that connection parameters carry, which a connection needs.
pub fn connection_token(payload_token: Option<String>) -> (r: Result<Token, ConnectionError>)
    ensures
        match payload_token {
            Some(t) => r matches Ok(tok) && tok.0 == t,
            None => r == Err::<Token, ConnectionError>(ConnectionError::TokenRequired),
        },
{
    match payload_token {
        Some(t) => Ok(Token(t)),
        None => Err(ConnectionError::TokenRequired),
    }
}

/// The queries of the token schema.
pub struct QueryRoot;

impl QueryRoot {
    /// The token that came with the request, if any.
    pub fn current_token(&self, token: Option<&Token>) -> (r: Option<String>)
        ensures
            match token {
                Some(t) => r == Some(t.0),
                None => r is None,
            },
    {
        match token {
            Some(t) => Some(t.0.clone()),
            None => None,
        }
    }
}

/// The subscriptions of the token schema.
pub struct SubscriptionRoot;

impl SubscriptionRoot {
    /// The one value that the subscription streams, for the admitted token.
    pub fn values(&self, token: Option<&Token>) -> (r: Result<i32, TokenError>)
        ensures
            r == (match token {
                None => Err(TokenError::Missing),
                Some(t) => if t.0@ == admitted_token() {
                    Ok(10i32)
                } else {
                    Err(TokenError::Forbidden)
                },
            }),
    {
        match token {
            None => Err(TokenError::Missing),
            Some(t) => {
                if str_eq(t.0.as_str(), "123456") {
                    Ok(10)
                } else {
                    Err(TokenError::Forbidden)
                }
            },
        }
    }
}

} // verus!
