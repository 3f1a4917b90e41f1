//! Decision of the login use case.

use vstd::prelude::*;
use vstd::string::*;

use crate::shared::auth::error::{auth_error_text, AuthError};
use crate::shared::auth::jwt::{expiration_in_range, issued_claims, spec_jwt_checked_claims, token_for, JwtService};
use crate::shared::ids::{uuid_text, uuid_to_string, CLOCK_SECONDS_BOUND, UUID_V4_FIXED_BITS, UUID_V4_FIXED_MASK};
use crate::users::application::service::{hash_always_checks, spec_argon2_verify, UserService};
use crate::users::domain::{DomainError, User};

verus! {

/// Whether a login with `password` is accepted for the user a lookup by
/// email found: there is such a user and the password matches its hash.
pub open spec fn login_accepted(found: Result<Option<User>, DomainError>, password: Seq<char>) -> bool {
    found matches Ok(Some(u)) && spec_argon2_verify(password, u.password_hash@) == Ok::<bool, Seq<char>>(true)
}

/// A user stored by a registration logs in with the password given at
/// registration: the registration keeps only hashes that verify against
/// that password, and a verifying password is what a login accepts.
pub proof fn lemma_registered_password_logs_in(password: Seq<char>, user: User)
    requires
        spec_argon2_verify(password, user.password_hash@) == Ok::<bool, Seq<char>>(true),
    ensures
        login_accepted(Ok(Some(user)), password),
{
}

/// A user stored by a registration is never answered with a hashing
/// error at login: its hash parses, so a password either matches it or,
/// when it does not, is a plain mismatch that login answers with
/// `Unauthorized`.
pub proof fn lemma_registered_hash_only_matches_or_mismatches(password: Seq<char>, user: User)
    requires
        hash_always_checks(user.password_hash@),
    ensures
        spec_argon2_verify(password, user.password_hash@) == Ok::<bool, Seq<char>>(true)
            || spec_argon2_verify(password, user.password_hash@) == Ok::<bool, Seq<char>>(false),
{
    assert(spec_argon2_verify(password, user.password_hash@) is Ok);
    let b = spec_argon2_verify(password, user.password_hash@)->Ok_0;
    assert(spec_argon2_verify(password, user.password_hash@) == Ok::<bool, Seq<char>>(b));
}

/// Issues access tokens to users who give the right password.
pub struct LoginService {
    jwt_service: JwtService,
}

impl LoginService {
    /// The token service the login signs with.
    pub closed spec fn jwt_spec(self) -> JwtService {
        self.jwt_service
    }

    pub fn new(jwt_service: JwtService) -> (r: Self)
        ensures
            r.jwt_spec() == jwt_service,
    {
        LoginService { jwt_service }
    }

    /// After looking up the user by the email given at login: an unknown
    /// email and a wrong password both answer `Unauthorized`; a matching
    /// password gets a token whose subject is the user's id, and checking
    /// that token with the service's secret reads back its claims. With
    /// an expiration in range, a matching password always gets a token.
    pub fn login(&self, found: Result<Option<User>, DomainError>, password: &str) -> (r: Result<String, DomainError>)
        ensures
            found matches Err(e) ==> r == Err::<String, DomainError>(e),
            found matches Ok(None) ==> r == Err::<String, DomainError>(DomainError::Unauthorized),
            found matches Ok(Some(u)) ==> {
                let checked = spec_argon2_verify(password@, u.password_hash@);
                &&& checked matches Err(m) ==> (r matches Err(DomainError::Hashing(t)) && t@ == m)
                &&& checked == Ok::<bool, Seq<char>>(false) ==> r == Err::<String, DomainError>(DomainError::Unauthorized)
                &&& checked == Ok::<bool, Seq<char>>(true) && expiration_in_range(self.jwt_spec().expiration_spec())
                    ==> r is Ok
                &&& checked == Ok::<bool, Seq<char>>(true) ==> ({
                    ||| r matches Err(DomainError::Validation(m)) && m@ == auth_error_text(AuthError::TokenCreation)
                    ||| r matches Ok(t) && exists|now: i64, id: u128|
                        #![trigger token_for(self.jwt_spec().secret_spec(), uuid_text(u.id), uuid_text(id), now, self.jwt_spec().expiration_spec())]
                        {
                            &&& -CLOCK_SECONDS_BOUND <= now <= CLOCK_SECONDS_BOUND
                            &&& id & UUID_V4_FIXED_MASK == UUID_V4_FIXED_BITS
                            &&& token_for(self.jwt_spec().secret_spec(), uuid_text(u.id), uuid_text(id), now,
                                self.jwt_spec().expiration_spec()) == Some(t@)
                            &&& spec_jwt_checked_claims(self.jwt_spec().secret_spec(), t@)
                                == Some(issued_claims(uuid_text(u.id), uuid_text(id), now, self.jwt_spec().expiration_spec()))
                        }
                })
            },
            r is Ok ==> login_accepted(found, password@),
            r matches Ok(t) ==> t@.len() > 0,
    {
        let user = match found {
            Err(e) => return Err(e),
            Ok(None) => return Err(DomainError::Unauthorized),
            Ok(Some(u)) => u,
        };
        let password_valid = match UserService::verify_password(password, user.password_hash.as_str()) {
            Ok(b) => b,
            Err(e) => return Err(e),
        };
        if !password_valid {
            return Err(DomainError::Unauthorized);
        }
        let subject = uuid_to_string(user.id);
        match self.jwt_service.create_token(subject.as_str()) {
            Ok(token) => {
                proof {
                    let secret = self.jwt_service.secret_spec();
                    let expiration = self.jwt_service.expiration_spec();
                    let (now, id) = choose|now: i64, id: u128| {
                        &&& i64::MIN <= now + expiration <= i64::MAX
                        &&& -CLOCK_SECONDS_BOUND <= now <= CLOCK_SECONDS_BOUND
                        &&& id & UUID_V4_FIXED_MASK == UUID_V4_FIXED_BITS
                        &&& #[trigger] token_for(secret, subject@, uuid_text(id), now, expiration) == Some(token@)
                        &&& spec_jwt_checked_claims(secret, token@)
                            == Some(issued_claims(subject@, uuid_text(id), now, expiration))
                    };
                    assert(token_for(self.jwt_spec().secret_spec(), uuid_text(user.id), uuid_text(id), now,
                        self.jwt_spec().expiration_spec()) == Some(token@));
                }
                Ok(token)
            },
            Err(e) => Err(DomainError::Validation(e.message())),
        }
    }
}

} // verus!
