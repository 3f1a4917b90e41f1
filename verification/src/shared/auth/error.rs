//! Errors of token handling.

use vstd::prelude::*;
use vstd::string::*;

verus! {

#[derive(Debug, PartialEq, Eq)]
pub enum AuthError {
    InvalidToken,
    TokenCreation,
}

/// The text each error shows.
pub open spec fn auth_error_text(e: AuthError) -> Seq<char> {
    match e {
        AuthError::InvalidToken => "invalid token"@,
        AuthError::TokenCreation => "token creation failed"@,
    }
}

impl AuthError {
    /// The text of this error.
    pub fn message(&self) -> (r: String)
        ensures
            r@ == auth_error_text(*self),
    {
        match self {
            AuthError::InvalidToken => String::from_str("invalid token"),
            AuthError::TokenCreation => String::from_str("token creation failed"),
        }
    }
}

} // verus!
