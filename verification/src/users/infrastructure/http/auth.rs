//! Bearer-token authentication of requests: from the `Authorization`
//! header to the authenticated user.

use vstd::prelude::*;
use vstd::string::*;

use crate::shared::auth::claims::Claims;
use crate::shared::auth::jwt::{spec_jwt_checked_claims, JwtService};
use crate::shared::ids::{parse_uuid, spec_uuid_parse};
use crate::shared::text::starts_with_str;

verus! {

/// The user a valid access token speaks for.
pub struct AuthenticatedUser {
    pub user_id: u128,
    pub jti: u128,
    pub exp: usize,
}

/// Why a request was not authenticated. Every rejection is answered with
/// `401 Unauthorized` and its message.
#[derive(Debug, PartialEq, Eq)]
pub enum AuthRejection {
    MissingHeader,
    InvalidHeader,
    InvalidScheme,
    InvalidToken,
    InvalidUserId,
    InvalidTokenId,
}

/// The message of each rejection.
pub open spec fn rejection_text(r: AuthRejection) -> Seq<char> {
    match r {
        AuthRejection::MissingHeader => "Missing Authorization header"@,
        AuthRejection::InvalidHeader => "Invalid Authorization header"@,
        AuthRejection::InvalidScheme => "Invalid Authorization scheme"@,
        AuthRejection::InvalidToken => "Invalid or expired token"@,
        AuthRejection::InvalidUserId => "Invalid user ID"@,
        AuthRejection::InvalidTokenId => "Invalid token ID"@,
    }
}

/// The scheme that introduces a bearer token in the header.
pub open spec fn bearer_prefix() -> Seq<char> {
    "Bearer "@
}

impl AuthRejection {
    /// HTTP status of every rejection.
    pub fn status(&self) -> (r: u16)
        ensures
            r == 401,
    {
        401
    }

    /// The message of this rejection.
    pub fn message(&self) -> (r: &'static str)
        ensures
            r@ == rejection_text(*self),
    {
        match self {
            AuthRejection::MissingHeader => "Missing Authorization header",
            AuthRejection::InvalidHeader => "Invalid Authorization header",
            AuthRejection::InvalidScheme => "Invalid Authorization scheme",
            AuthRejection::InvalidToken => "Invalid or expired token",
            AuthRejection::InvalidUserId => "Invalid user ID",
            AuthRejection::InvalidTokenId => "Invalid token ID",
        }
    }
}

impl AuthenticatedUser {
    /// The token a request carries. `header` is `None` when there is no
    /// `Authorization` header and `Some(None)` when its value is not
    /// visible ASCII text.
    pub fn bearer_token<'a>(header: Option<Option<&'a str>>) -> (r: Result<&'a str, AuthRejection>)
        ensures
            header is None ==> r == Err::<&'a str, AuthRejection>(AuthRejection::MissingHeader),
            header == Some(None::<&'a str>) ==> r == Err::<&'a str, AuthRejection>(AuthRejection::InvalidHeader),
            header matches Some(Some(h)) ==> {
                if bearer_prefix().len() <= h@.len() && h@.take(bearer_prefix().len() as int) == bearer_prefix() {
                    r matches Ok(t) && t@ == h@.skip(bearer_prefix().len() as int)
                } else {
                    r == Err::<&'a str, AuthRejection>(AuthRejection::InvalidScheme)
                }
            },
    {
        let h = match header {
            None => return Err(AuthRejection::MissingHeader),
            Some(None) => return Err(AuthRejection::InvalidHeader),
            Some(Some(h)) => h,
        };
        let prefix = "Bearer ";
        proof { reveal_strlit("Bearer "); }
        if !starts_with_str(h, prefix) {
            return Err(AuthRejection::InvalidScheme);
        }
        let n = h.unicode_len();
        Ok(h.substring_char(7, n))
    }

    /// Checks the bearer token of a request and gives the JSON text of
    /// its claims: a missing or malformed header is rejected as such; the
    /// text after `Bearer ` goes to `JwtService::validate_token`, and a
    /// token that does not pass it is rejected as `InvalidToken`. What is
    /// returned are the claims that the token's checked signature and
    /// payload give; a token whose signature does not check is always
    /// refused. Whether one that checks has expired depends on the clock.
    pub fn check_token(jwt: &JwtService, header: Option<Option<&str>>) -> (r: Result<String, AuthRejection>)
        ensures
            header is None ==> r == Err::<String, AuthRejection>(AuthRejection::MissingHeader),
            header == Some(None::<&str>) ==> r == Err::<String, AuthRejection>(AuthRejection::InvalidHeader),
            header matches Some(Some(h)) && !(bearer_prefix().len() <= h@.len()
                && h@.take(bearer_prefix().len() as int) == bearer_prefix())
                ==> r == Err::<String, AuthRejection>(AuthRejection::InvalidScheme),
            r matches Err(e) ==> e != AuthRejection::InvalidUserId && e != AuthRejection::InvalidTokenId,
            header matches Some(Some(h)) ==> (bearer_prefix().len() <= h@.len()
                && h@.take(bearer_prefix().len() as int) == bearer_prefix() ==> ({
                let token = h@.skip(bearer_prefix().len() as int);
                &&& r matches Ok(c) ==> spec_jwt_checked_claims(jwt.secret_spec(), token) == Some(c@)
                &&& spec_jwt_checked_claims(jwt.secret_spec(), token) is None
                    ==> r == Err::<String, AuthRejection>(AuthRejection::InvalidToken)
                &&& r is Err ==> r == Err::<String, AuthRejection>(AuthRejection::InvalidToken)
            })),
    {
        let token = match Self::bearer_token(header) {
            Ok(t) => t,
            Err(e) => return Err(e),
        };
        match jwt.validate_token(token) {
            Ok(claims) => Ok(claims),
            Err(_) => Err(AuthRejection::InvalidToken),
        }
    }

    /// The authenticated user of verified claims: subject and token id
    /// must both be UUIDs.
    pub fn from_claims(claims: &Claims) -> (r: Result<AuthenticatedUser, AuthRejection>)
        ensures
            spec_uuid_parse(claims.sub@) is None ==> r == Err::<AuthenticatedUser, AuthRejection>(AuthRejection::InvalidUserId),
            spec_uuid_parse(claims.sub@) is Some && spec_uuid_parse(claims.jti@) is None
                ==> r == Err::<AuthenticatedUser, AuthRejection>(AuthRejection::InvalidTokenId),
            spec_uuid_parse(claims.sub@) is Some && spec_uuid_parse(claims.jti@) is Some
                ==> r == Ok::<AuthenticatedUser, AuthRejection>((AuthenticatedUser {
                    user_id: spec_uuid_parse(claims.sub@)->0,
                    jti: spec_uuid_parse(claims.jti@)->0,
                    exp: claims.exp,
                })),
    {
        let user_id = match parse_uuid(claims.sub.as_str()) {
            Some(u) => u,
            None => return Err(AuthRejection::InvalidUserId),
        };
        let jti = match parse_uuid(claims.jti.as_str()) {
            Some(j) => j,
            None => return Err(AuthRejection::InvalidTokenId),
        };
        Ok(AuthenticatedUser { user_id, jti, exp: claims.exp })
    }
}

} // verus!
