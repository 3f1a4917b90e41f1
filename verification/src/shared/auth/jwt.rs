//! Signing and checking access tokens (JWT, HMAC-SHA256).

use vstd::prelude::*;
use vstd::string::*;

use super::claims::{claims_json, Claims};
use super::error::AuthError;
use crate::shared::ids::{
    new_uuid_v4, now_unix_seconds, uuid_text, uuid_to_string, CLOCK_SECONDS_BOUND, UUID_V4_FIXED_BITS, UUID_V4_FIXED_MASK,
};

verus! {

/// What `jsonwebtoken::encode` yields for claims given as the JSON text
/// `claims_text`, the default header (HS256) and a key made from the
/// bytes of `secret`: the token, or nothing when it fails.
pub uninterp spec fn spec_jwt_sign(secret: Seq<char>, claims_text: Seq<char>) -> Option<Seq<char>>;

/// What `jsonwebtoken::decode` (key from the bytes of `secret`,
/// `Validation::default()`) reads from `token` before it looks at the
/// claims: the JSON text of the claims, as `serde_json` gives it for a
/// `RawValue`, when the header names HS256, the signature checks under
/// `secret` and the payload is base64url-encoded JSON; nothing otherwise.
/// This part of `decode` (`verify_signature`, then the decoding of the
/// payload) depends on the secret and the token alone.
pub uninterp spec fn spec_jwt_checked_claims(secret: Seq<char>, token: Seq<char>) -> Option<Seq<char>>;

/// Signs claims, given as their JSON text, into a token with
/// `jsonwebtoken::encode` (default header, HS256, key from the bytes of
/// `secret`). The text reaches the encoder through
/// `serde_json::value::RawValue::from_string`, which fails only on text
/// that is not JSON and otherwise keeps it as it is, surrounding
/// whitespace aside; HMAC signing itself cannot fail. So the token is a
/// function of the secret and the text; claims framed as `serde_json`
/// writes them always sign; and the token carries the HS256 header and
/// the text as its payload, so checking it with the same secret reads
/// that text back (for a JSON object, which has no surrounding
/// whitespace). A token is never empty: it is the encoded header, payload
/// and signature joined by dots.
#[verifier::external_body]
fn jwt_sign(secret: &str, claims_text: String) -> (r: Option<String>)
    ensures
        spec_jwt_sign(secret@, claims_text@) == (match r {
            Some(t) => Some(t@),
            None => None,
        }),
        (exists|sub: Seq<char>, jti: Seq<char>, exp: nat, iat: nat|
            claims_text@ == #[trigger] claims_json(sub, jti, exp, iat)) ==> r is Some,
        (match r {
            Some(t) => t@.len() > 0 && (claims_text@.len() > 0 && claims_text@[0] == '{' && claims_text@.last() == '}'
                ==> spec_jwt_checked_claims(secret@, t@) == Some(claims_text@)),
            None => true,
        }),
{
    let claims = serde_json::value::RawValue::from_string(claims_text).ok()?;
    jsonwebtoken::encode(
        &jsonwebtoken::Header::default(),
        &claims,
        &jsonwebtoken::EncodingKey::from_secret(secret.as_bytes()),
    ).ok()
}

/// Checks a token with `jsonwebtoken::decode` (key from the bytes of
/// `secret`, `Validation::default()`: HS256, signature, then the claims:
/// `exp` present and not past, with its leeway) and gives back the JSON
/// text of its claims. A token that passes has the claims that signature
/// and payload give; whether it passes the expiry check depends on the
/// current time, so a token with a good signature may still be refused,
/// and nothing more is stated of that.
#[verifier::external_body]
fn jwt_verified_claims(secret: &str, token: &str) -> (r: Option<String>)
    ensures
        (match r {
            Some(c) => spec_jwt_checked_claims(secret@, token@) == Some(c@),
            None => true,
        }),
{
    jsonwebtoken::decode::<Box<serde_json::value::RawValue>>(
        token,
        &jsonwebtoken::DecodingKey::from_secret(secret.as_bytes()),
        &jsonwebtoken::Validation::default(),
    ).ok().map(|data| data.claims.get().to_string())
}

/// The token issued at second `now` to subject `sub`, with token id
/// `jti`, valid for `expiration` seconds.
pub open spec fn token_for(secret: Seq<char>, sub: Seq<char>, jti: Seq<char>, now: i64, expiration: i64) -> Option<Seq<char>> {
    spec_jwt_sign(secret, issued_claims(sub, jti, now, expiration))
}

/// The JSON text of the claims of a token issued at second `now` to
/// subject `sub`, with token id `jti`, valid for `expiration` seconds.
pub open spec fn issued_claims(sub: Seq<char>, jti: Seq<char>, now: i64, expiration: i64) -> Seq<char> {
    claims_json(sub, jti, ((now + expiration) as usize) as nat, (now as usize) as nat)
}

/// Expiry times for which issuing a token never overflows, whatever the
/// clock says.
pub open spec fn expiration_in_range(expiration: i64) -> bool {
    i64::MIN + CLOCK_SECONDS_BOUND <= expiration <= i64::MAX - CLOCK_SECONDS_BOUND
}

/// A token issued by one service (`create_token` states the claims its
/// checked signature and payload give) and accepted by another service
/// with the same secret (`validate_token` states that what it accepts are
/// those checked claims) gives back exactly the claims it was issued
/// with: subject, token id, expiry and issue time.
pub proof fn lemma_issued_token_reads_back(
    issuer: JwtService,
    checker: JwtService,
    sub: Seq<char>,
    jti: Seq<char>,
    now: i64,
    token: Seq<char>,
    accepted: Seq<char>,
)
    requires
        issuer.secret_spec() == checker.secret_spec(),
        spec_jwt_checked_claims(issuer.secret_spec(), token)
            == Some(issued_claims(sub, jti, now, issuer.expiration_spec())),
        spec_jwt_checked_claims(checker.secret_spec(), token) == Some(accepted),
    ensures
        accepted == issued_claims(sub, jti, now, issuer.expiration_spec()),
{
}

/// Issues and checks access tokens signed with one secret.
#[derive(Clone)]
pub struct JwtService {
    secret: String,
    expiration: i64,
}

impl JwtService {
    /// The secret tokens are signed with.
    pub closed spec fn secret_spec(self) -> Seq<char> {
        self.secret@
    }

    /// How long, in seconds, a token stays valid.
    pub closed spec fn expiration_spec(self) -> i64 {
        self.expiration
    }

    /// A service that signs with `secret` tokens valid for
    /// `expiration_seconds` seconds.
    pub fn new(secret: &str, expiration_seconds: i64) -> (r: Self)
        ensures
            r.secret_spec() == secret@,
            r.expiration_spec() == expiration_seconds,
    {
        JwtService { secret: secret.to_string(), expiration: expiration_seconds }
    }

    /// Creates a token for the user `user_id`: issued now, expiring after
    /// the configured time, with a fresh random token id. Checking the
    /// token with the same secret reads back exactly its claims. It fails,
    /// with `TokenCreation`, only when the expiry does not fit in an
    /// `i64`, which cannot happen for an expiration in range.
    pub fn create_token(&self, user_id: &str) -> (r: Result<String, AuthError>)
        ensures
            r is Err ==> r == Err::<String, AuthError>(AuthError::TokenCreation),
            expiration_in_range(self.expiration_spec()) ==> r is Ok,
            r matches Ok(t) ==> t@.len() > 0,
            r matches Ok(t) ==> exists|now: i64, id: u128|
                #![trigger token_for(self.secret_spec(), user_id@, uuid_text(id), now, self.expiration_spec())]
                {
                    &&& i64::MIN <= now + self.expiration_spec() <= i64::MAX
                    &&& -CLOCK_SECONDS_BOUND <= now <= CLOCK_SECONDS_BOUND
                    &&& id & UUID_V4_FIXED_MASK == UUID_V4_FIXED_BITS
                    &&& token_for(self.secret_spec(), user_id@, uuid_text(id), now, self.expiration_spec())
                        == Some(t@)
                    &&& spec_jwt_checked_claims(self.secret_spec(), t@)
                        == Some(issued_claims(user_id@, uuid_text(id), now, self.expiration_spec()))
                },
    {
        let now = now_unix_seconds();
        let exp = match now.checked_add(self.expiration) {
            Some(e) => e,
            None => return Err(AuthError::TokenCreation),
        };
        let id = new_uuid_v4();
        let claims = Claims {
            sub: user_id.to_string(),
            jti: uuid_to_string(id),
            exp: exp as usize,
            iat: now as usize,
        };
        let json = claims.to_json();
        let ghost text = json@;
        proof {
            let c = issued_claims(user_id@, uuid_text(id), now, self.expiration_spec());
            assert(text == claims_json(user_id@, uuid_text(id), ((now + self.expiration) as usize) as nat,
                (now as usize) as nat));
            assert(text[0] == '{');
            assert(text.last() == '}');
        }
        match jwt_sign(self.secret.as_str(), json) {
            Some(token) => {
                assert(token_for(self.secret_spec(), user_id@, uuid_text(id), now, self.expiration_spec())
                    == Some(token@));
                Ok(token)
            },
            None => Err(AuthError::TokenCreation),
        }
    }

    /// Checks `token` (signature and expiry) and gives back the JSON text
    /// of its claims, or `InvalidToken`. A token whose signature does not
    /// check under this service's secret is always refused; one whose
    /// signature checks is accepted when its `exp` is present and not
    /// past, which depends on the clock and is not stated.
    pub fn validate_token(&self, token: &str) -> (r: Result<String, AuthError>)
        ensures
            r matches Ok(c) ==> spec_jwt_checked_claims(self.secret_spec(), token@) == Some(c@),
            spec_jwt_checked_claims(self.secret_spec(), token@) is None
                ==> r == Err::<String, AuthError>(AuthError::InvalidToken),
            r is Err ==> r == Err::<String, AuthError>(AuthError::InvalidToken),
    {
        match jwt_verified_claims(self.secret.as_str(), token) {
            Some(claims) => Ok(claims),
            None => Err(AuthError::InvalidToken),
        }
    }
}

} // verus!
