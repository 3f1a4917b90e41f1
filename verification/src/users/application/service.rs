//! Decisions of the user use cases. Each use case is a short exchange
//! with the user repository: a step names the repository call to make
//! next, and the answer of that call is handed back to the next step,
//! until the use case is `Done`. The caller performs the calls.

use argon2::password_hash::{PasswordHasher, PasswordVerifier};
use vstd::prelude::*;
use vstd::string::*;

use crate::shared::ids::now_micros;
use crate::shared::pagination::{normalized_page, normalized_page_size, Pagination};
use crate::shared::text::{
    all_white_space, contains_between, lemma_trim_ignores_padding, len_at_least, trim, trimmed_len_at_least, trimmed_range, utf8_len,
    utf8_len_at_least,
};
use crate::users::domain::{DomainError, User};

verus! {

/// Minimum length (characters) of a new password.
pub const MIN_PASSWORD_LEN: u8 = 8;

/// Minimum length (characters, surrounding whitespace aside) of a username.
pub const MIN_USERNAME_LEN: u8 = 3;

/// Minimum length (UTF-8 bytes, surrounding whitespace aside) of an email.
pub const MIN_EMAIL_LEN: u8 = 5;

/// A username is valid when, trimmed, it has at least `MIN_USERNAME_LEN` characters.
pub open spec fn valid_username(s: Seq<char>) -> bool {
    trim(s).len() >= MIN_USERNAME_LEN
}

/// An email is valid when, trimmed, it takes at least `MIN_EMAIL_LEN` bytes in UTF-8,
/// contains `@` and `.`, and neither starts nor ends with `@`.
pub open spec fn valid_email(s: Seq<char>) -> bool {
    let t = trim(s);
    &&& utf8_len(t) >= MIN_EMAIL_LEN
    &&& t.contains('@')
    &&& t.contains('.')
    &&& t[0] != '@'
    &&& t.last() != '@'
}

/// A password is valid when it has at least `MIN_PASSWORD_LEN` characters.
pub open spec fn valid_password(s: Seq<char>) -> bool {
    s.len() >= MIN_PASSWORD_LEN
}

pub open spec fn username_rule_text() -> Seq<char> {
    "El nombre de usuario debe tener al menos 3 caracteres"@
}

pub open spec fn email_rule_text() -> Seq<char> {
    "El email no es válido"@
}

pub open spec fn password_rule_text() -> Seq<char> {
    "La contraseña debe tener al menos 8 caracteres"@
}

/// The conflict message for an email that another account already uses.
pub open spec fn email_taken_text(email: Seq<char>) -> Seq<char> {
    "El email '"@ + email + "' ya está registrado"@
}

/// The email rule in full: once trimmed, an email is accepted exactly
/// when it takes at least 5 bytes in UTF-8, has an `@` and a `.`, and
/// neither begins nor ends with `@`. In particular an email with no `.`
/// (such as "john@gmailcom") or no `@` is always refused.
pub proof fn lemma_email_rule(s: Seq<char>)
    ensures
        valid_email(s) <==> {
            let t = trim(s);
            &&& utf8_len(t) >= 5
            &&& t.contains('@')
            &&& t.contains('.')
            &&& t[0] != '@'
            &&& t[t.len() - 1] != '@'
        },
        !trim(s).contains('.') ==> !valid_email(s),
        !trim(s).contains('@') ==> !valid_email(s),
{
}

/// The username and password rules in full: a username is accepted
/// exactly when it has at least 3 characters once trimmed; a password
/// exactly when it has at least 8 characters, whitespace included. A
/// longer password is never worse than its prefix.
pub proof fn lemma_username_and_password_rules(name: Seq<char>, password: Seq<char>, more: Seq<char>)
    ensures
        valid_username(name) <==> trim(name).len() >= 3,
        valid_password(password) <==> password.len() >= 8,
        valid_password(password) ==> valid_password(password + more),
{
}

/// Usernames and emails are judged without the whitespace around them:
/// padding a valid one keeps it valid, padding an invalid one keeps it
/// invalid.
pub proof fn lemma_user_rules_ignore_padding(w1: Seq<char>, s: Seq<char>, w2: Seq<char>)
    requires
        all_white_space(w1),
        all_white_space(w2),
    ensures
        valid_username(w1 + s + w2) == valid_username(s),
        valid_email(w1 + s + w2) == valid_email(s),
{
    lemma_trim_ignores_padding(w1, s, w2);
}

/// How every hash made by `Argon2::default()` begins: the PHC string of
/// the Argon2id algorithm.
pub open spec fn argon2id_prefix() -> Seq<char> {
    "$argon2id$"@
}

/// Whether `hash` is an Argon2id PHC string.
pub open spec fn is_argon2id_hash(hash: Seq<char>) -> bool {
    argon2id_prefix().len() <= hash.len() && hash.take(argon2id_prefix().len() as int) == argon2id_prefix()
}

/// Whether every password can be checked against `hash` without error:
/// the hash parses, so a wrong password is a plain mismatch.
pub open spec fn hash_always_checks(hash: Seq<char>) -> bool {
    forall|password: Seq<char>| #[trigger] spec_argon2_verify(password, hash) is Ok
}

/// Longest password, in UTF-8 bytes, that Argon2 hashes (`MAX_PWD_LEN`).
pub open spec fn hashable_password(password: Seq<char>) -> bool {
    utf8_len(password) <= 0xFFFF_FFFF
}

/// What checking `password` against the stored hash `hash` gives with
/// Argon2 (`PasswordHash::new` then `Argon2::verify_password`): whether
/// it matches, or the error text when the hash cannot be parsed.
pub uninterp spec fn spec_argon2_verify(password: Seq<char>, hash: Seq<char>) -> Result<bool, Seq<char>>;

/// Hashes `password` with Argon2id (`Argon2::default().hash_password`)
/// and a fresh random salt from `SaltString::generate(&mut OsRng)`, and
/// gives the PHC string, or the error text. The salt is random, so the
/// hash is not a function of the password, and nothing is said of how
/// two hashes of one password differ. What the argon2 crate shows is
/// that the hash verifies against that password, that its PHC string
/// names Argon2id, that it parses back with `PasswordHash::new` (which
/// depends on the hash alone), so that checking any password against it
/// gives a match or a mismatch and never an error, and that with the
/// default parameters and a generated salt the only failure is a
/// password longer than `MAX_PWD_LEN` bytes.
#[verifier::external_body]
fn argon2_hash(password: &str) -> (r: Result<String, String>)
    ensures
        hashable_password(password@) ==> r is Ok,
        (match r {
            Ok(h) => spec_argon2_verify(password@, h@) == Ok::<bool, Seq<char>>(true) && is_argon2id_hash(h@)
                && hash_always_checks(h@),
            Err(_) => true,
        }),
{
    let salt = argon2::password_hash::SaltString::generate(&mut argon2::password_hash::rand_core::OsRng);
    argon2::Argon2::default()
        .hash_password(password.as_bytes(), &salt)
        .map(|hash| hash.to_string())
        .map_err(|e| e.to_string())
}

/// Checks `password` against the PHC string `hash` with Argon2: parses
/// it with `PasswordHash::new` (its error text when that fails), then
/// `Argon2::default().verify_password`, which recomputes the hash with
/// the parameters and salt the string carries. A hash whose parameters
/// ask for more memory than the machine has stops the process; the
/// hashes this library stores carry the default parameters.
#[verifier::external_body]
fn argon2_verify(password: &str, hash: &str) -> (r: Result<bool, String>)
    ensures
        spec_argon2_verify(password@, hash@) == (match r {
            Ok(b) => Ok::<bool, Seq<char>>(b),
            Err(m) => Err::<bool, Seq<char>>(m@),
        }),
{
    let parsed = argon2::password_hash::PasswordHash::new(hash).map_err(|e| e.to_string())?;
    Ok(argon2::Argon2::default().verify_password(password.as_bytes(), &parsed).is_ok())
}

/// A registration whose data passed validation and that waits for the
/// answer to "is this email already registered?".
pub struct Registration {
    username: String,
    email: String,
    password: String,
}

/// Where a registration stands.
pub enum RegisterStep {
    /// Look up the user with this email and hand the answer to
    /// `Registration::after_email_lookup`.
    LookupEmail(Registration, String),
    /// Store this new user; the repository's answer is the outcome.
    Create(User),
    /// The registration ended with this outcome.
    Done(Result<User, DomainError>),
}

/// A profile update waiting for the user it changes.
pub struct UserUpdate {
    id: u128,
    username: Option<String>,
    email: Option<String>,
}

/// A profile update whose new email waits for the answer to "who already
/// uses this email?".
pub struct PendingEmailChange {
    user: User,
    email: String,
}

/// Where a profile update stands.
pub enum UserUpdateStep {
    /// Look up the user with this email and hand the answer to
    /// `PendingEmailChange::after_email_lookup`.
    LookupEmail(PendingEmailChange, String),
    /// Save this user; the repository's answer is the outcome.
    Save(User),
    /// The update ended with this outcome.
    Done(Result<User, DomainError>),
}

/// `user` with its username replaced when a new one is given.
pub open spec fn with_username(user: User, username: Option<String>) -> User {
    match username {
        Some(n) => User { username: n, ..user },
        None => user,
    }
}

/// Decisions of the user use cases.
pub struct UserService;

impl UserService {
    /// Checks a username: at least `MIN_USERNAME_LEN` characters once trimmed.
    pub fn validate_username(username: &str) -> (r: Result<(), DomainError>)
        ensures
            r is Ok <==> valid_username(username@),
            r matches Err(e) ==> (e matches DomainError::Validation(m) && m@ == username_rule_text()),
    {
        if !trimmed_len_at_least(username, MIN_USERNAME_LEN) {
            return Err(DomainError::Validation(
                String::from_str("El nombre de usuario debe tener al menos 3 caracteres"),
            ));
        }
        Ok(())
    }

    /// Checks the basic shape of an email (see `valid_email`).
    pub fn validate_email(email: &str) -> (r: Result<(), DomainError>)
        ensures
            r is Ok <==> valid_email(email@),
            r matches Err(e) ==> (e matches DomainError::Validation(m) && m@ == email_rule_text()),
    {
        let (lo, hi) = trimmed_range(email);
        let long_enough = utf8_len_at_least(email, lo, hi, MIN_EMAIL_LEN);
        proof {
            if hi == lo {
                assert(email@.subrange(lo as int, hi as int) == Seq::<char>::empty());
                assert(utf8_len(Seq::<char>::empty()) == 0);
            }
        }
        let is_valid = long_enough
            && contains_between(email, lo, hi, '@')
            && contains_between(email, lo, hi, '.')
            && email.get_char(lo) != '@'
            && email.get_char(hi - 1) != '@';
        proof {
            let t = email@.subrange(lo as int, hi as int);
            if long_enough {
                assert(t[0] == email@[lo as int]);
                assert(t.last() == email@[hi - 1]);
            }
        }
        if !is_valid {
            return Err(DomainError::Validation(String::from_str("El email no es válido")));
        }
        Ok(())
    }

    /// Checks a password: at least `MIN_PASSWORD_LEN` characters.
    pub fn validate_password(password: &str) -> (r: Result<(), DomainError>)
        ensures
            r is Ok <==> valid_password(password@),
            r matches Err(e) ==> (e matches DomainError::Validation(m) && m@ == password_rule_text()),
    {
        if !len_at_least(password, MIN_PASSWORD_LEN) {
            return Err(DomainError::Validation(
                String::from_str("La contraseña debe tener al menos 8 caracteres"),
            ));
        }
        Ok(())
    }

    /// Hashes a plain-text password with Argon2id and a salt that is
    /// random on every call. The hash is an Argon2id PHC string that
    /// verifies against the password; only a password too long for Argon2
    /// fails.
    pub fn hash_password(password: &str) -> (r: Result<String, DomainError>)
        ensures
            hashable_password(password@) ==> r is Ok,
            r matches Ok(h) ==> spec_argon2_verify(password@, h@) == Ok::<bool, Seq<char>>(true)
                && is_argon2id_hash(h@) && hash_always_checks(h@),
            r matches Err(e) ==> e is Hashing,
    {
        match argon2_hash(password) {
            Ok(h) => Ok(h),
            Err(m) => Err(DomainError::Hashing(m)),
        }
    }

    /// Checks a plain-text password against a stored Argon2 hash. A hash
    /// that cannot be parsed gives `Hashing` with the parser's message.
    pub fn verify_password(password: &str, password_hash: &str) -> (r: Result<bool, DomainError>)
        ensures
            spec_argon2_verify(password@, password_hash@) matches Ok(b) ==> r == Ok::<bool, DomainError>(b),
            spec_argon2_verify(password@, password_hash@) matches Err(m)
                ==> (r matches Err(DomainError::Hashing(t)) && t@ == m),
    {
        match argon2_verify(password, password_hash) {
            Ok(b) => Ok(b),
            Err(m) => Err(DomainError::Hashing(m)),
        }
    }

    /// Starts a registration: validates username, email and password, in
    /// that order, and then asks whether the email is already registered.
    pub fn register_user(username: String, email: String, password: String) -> (r: RegisterStep)
        ensures
            !valid_username(username@) ==> (r matches RegisterStep::Done(Err(DomainError::Validation(m)))
                && m@ == username_rule_text()),
            valid_username(username@) && !valid_email(email@)
                ==> (r matches RegisterStep::Done(Err(DomainError::Validation(m))) && m@ == email_rule_text()),
            valid_username(username@) && valid_email(email@) && !valid_password(password@)
                ==> (r matches RegisterStep::Done(Err(DomainError::Validation(m))) && m@ == password_rule_text()),
            valid_username(username@) && valid_email(email@) && valid_password(password@)
                ==> (r matches RegisterStep::LookupEmail(reg, looked_up) && {
                    &&& looked_up@ == email@
                    &&& reg.username_spec() == username@
                    &&& reg.email_spec() == email@
                    &&& reg.password_spec() == password@
                }),
    {
        if let Err(e) = Self::validate_username(username.as_str()) {
            return RegisterStep::Done(Err(e));
        }
        if let Err(e) = Self::validate_email(email.as_str()) {
            return RegisterStep::Done(Err(e));
        }
        if let Err(e) = Self::validate_password(password.as_str()) {
            return RegisterStep::Done(Err(e));
        }
        let looked_up = email.clone();
        RegisterStep::LookupEmail(Registration { username, email, password }, looked_up)
    }

    /// The user a lookup by id found, or `NotFound`.
    pub fn found_or_not_found(found: Result<Option<User>, DomainError>) -> (r: Result<User, DomainError>)
        ensures
            found matches Err(e) ==> r == Err::<User, DomainError>(e),
            found matches Ok(Some(u)) ==> r == Ok::<User, DomainError>(u),
            found matches Ok(None) ==> r == Err::<User, DomainError>(DomainError::NotFound),
    {
        match found {
            Err(e) => Err(e),
            Ok(Some(u)) => Ok(u),
            Ok(None) => Err(DomainError::NotFound),
        }
    }

    /// Starts a listing: the page to fetch, with defaults and limits
    /// applied (page 1, 20 users per page, at most 100).
    pub fn get_all_users(page: Option<i64>, page_size: Option<i64>) -> (p: Pagination)
        ensures
            p.page_spec() == normalized_page(page),
            p.page_size_spec() == normalized_page_size(page_size),
    {
        Pagination::new(page, page_size)
    }

    /// Starts a profile update of the user `id`: the user is looked up first.
    pub fn update_user(id: u128, username: Option<String>, email: Option<String>) -> (r: UserUpdate)
        ensures
            r.id_spec() == id,
            r.username_spec() == username,
            r.email_spec() == email,
    {
        UserUpdate { id, username, email }
    }

    /// After looking up the user to delete: the id to delete, or why not.
    pub fn confirm_delete(id: u128, found: Result<Option<User>, DomainError>) -> (r: Result<u128, DomainError>)
        ensures
            found matches Err(e) ==> r == Err::<u128, DomainError>(e),
            found matches Ok(Some(_)) ==> r == Ok::<u128, DomainError>(id),
            found matches Ok(None) ==> r == Err::<u128, DomainError>(DomainError::NotFound),
    {
        match found {
            Err(e) => Err(e),
            Ok(Some(_)) => Ok(id),
            Ok(None) => Err(DomainError::NotFound),
        }
    }
}

impl Registration {
    pub closed spec fn username_spec(self) -> Seq<char> {
        self.username@
    }

    pub closed spec fn email_spec(self) -> Seq<char> {
        self.email@
    }

    pub closed spec fn password_spec(self) -> Seq<char> {
        self.password@
    }

    /// After looking up the email: a taken email is a conflict; a free
    /// one gets a new user with the hashed password, to be stored.
    pub fn after_email_lookup(self, found: Result<Option<User>, DomainError>) -> (r: RegisterStep)
        ensures
            found matches Err(e) ==> r == RegisterStep::Done(Err(e)),
            found matches Ok(Some(_)) ==> (r matches RegisterStep::Done(Err(DomainError::Conflict(m)))
                && m@ == email_taken_text(self.email_spec())),
            found matches Ok(None) && hashable_password(self.password_spec()) ==> r is Create,
            found matches Ok(None) ==> ({
                ||| r matches RegisterStep::Done(Err(DomainError::Hashing(_)))
                ||| r matches RegisterStep::Create(u) && {
                    &&& u.username@ == self.username_spec()
                    &&& u.email@ == self.email_spec()
                    &&& spec_argon2_verify(self.password_spec(), u.password_hash@) == Ok::<bool, Seq<char>>(true)
                    &&& is_argon2id_hash(u.password_hash@)
                    &&& hash_always_checks(u.password_hash@)
                    &&& u.created_at == u.updated_at
                }
            }),
    {
        match found {
            Err(e) => RegisterStep::Done(Err(e)),
            Ok(Some(_)) => {
                let msg = String::from_str("El email '").concat(self.email.as_str()).concat("' ya está registrado");
                RegisterStep::Done(Err(DomainError::Conflict(msg)))
            },
            Ok(None) => {
                match UserService::hash_password(self.password.as_str()) {
                    Err(e) => RegisterStep::Done(Err(e)),
                    Ok(hash) => RegisterStep::Create(User::new(self.username, self.email, hash)),
                }
            },
        }
    }
}

impl UserUpdate {
    pub closed spec fn id_spec(self) -> u128 {
        self.id
    }

    pub closed spec fn username_spec(self) -> Option<String> {
        self.username
    }

    pub closed spec fn email_spec(self) -> Option<String> {
        self.email
    }

    /// The id of the user to look up.
    pub fn id(&self) -> (r: u128)
        ensures
            r == self.id_spec(),
    {
        self.id
    }

    /// After looking up the user: checks and applies the new username,
    /// checks the new email and asks who uses it, or saves right away
    /// when the email does not change. Id, password hash and creation
    /// time are never touched.
    pub fn after_lookup(self, found: Result<Option<User>, DomainError>) -> (r: UserUpdateStep)
        ensures
            found matches Err(e) ==> r == UserUpdateStep::Done(Err(e)),
            found matches Ok(None) ==> r == UserUpdateStep::Done(Err(DomainError::NotFound)),
            found matches Ok(Some(user)) ==> {
                let name_ok = match self.username_spec() {
                    Some(n) => valid_username(n@),
                    None => true,
                };
                let changed = with_username(user, self.username_spec());
                &&& !name_ok ==> (r matches UserUpdateStep::Done(Err(DomainError::Validation(m)))
                    && m@ == username_rule_text())
                &&& name_ok && self.email_spec() is None ==> (r matches UserUpdateStep::Save(saved)
                    && saved == (User { updated_at: saved.updated_at, ..changed }))
                &&& name_ok && self.email_spec() is Some && !valid_email(self.email_spec()->0@)
                    ==> (r matches UserUpdateStep::Done(Err(DomainError::Validation(m)))
                    && m@ == email_rule_text())
                &&& name_ok && self.email_spec() is Some && valid_email(self.email_spec()->0@)
                    ==> (r matches UserUpdateStep::LookupEmail(pending, looked_up) && {
                        &&& looked_up@ == self.email_spec()->0@
                        &&& pending.user_spec() == changed
                        &&& pending.email_spec() == self.email_spec()->0@
                    })
            },
    {
        match found {
            Err(e) => UserUpdateStep::Done(Err(e)),
            Ok(None) => UserUpdateStep::Done(Err(DomainError::NotFound)),
            Ok(Some(user)) => {
                let mut user = user;
                if let Some(new_username) = self.username {
                    if let Err(e) = UserService::validate_username(new_username.as_str()) {
                        return UserUpdateStep::Done(Err(e));
                    }
                    user.username = new_username;
                }
                match self.email {
                    Some(new_email) => {
                        if let Err(e) = UserService::validate_email(new_email.as_str()) {
                            return UserUpdateStep::Done(Err(e));
                        }
                        let looked_up = new_email.clone();
                        UserUpdateStep::LookupEmail(PendingEmailChange { user, email: new_email }, looked_up)
                    },
                    None => {
                        user.updated_at = now_micros();
                        UserUpdateStep::Save(user)
                    },
                }
            },
        }
    }
}

impl PendingEmailChange {
    pub closed spec fn user_spec(self) -> User {
        self.user
    }

    pub closed spec fn email_spec(self) -> Seq<char> {
        self.email@
    }

    /// After looking up the new email: if another user has it, the update
    /// is a conflict; otherwise the email is set and the user saved.
    pub fn after_email_lookup(self, found: Result<Option<User>, DomainError>) -> (r: UserUpdateStep)
        ensures
            found matches Err(e) ==> r == UserUpdateStep::Done(Err(e)),
            found matches Ok(Some(other)) && other.id != self.user_spec().id
                ==> (r matches UserUpdateStep::Done(Err(DomainError::Conflict(m)))
                && m@ == email_taken_text(self.email_spec())),
            found is Ok && (found->Ok_0 is None || found->Ok_0->0.id == self.user_spec().id)
                ==> (r matches UserUpdateStep::Save(saved) && {
                    &&& saved.id == self.user_spec().id
                    &&& saved.username == self.user_spec().username
                    &&& saved.email@ == self.email_spec()
                    &&& saved.password_hash == self.user_spec().password_hash
                    &&& saved.created_at == self.user_spec().created_at
                }),
    {
        match found {
            Err(e) => UserUpdateStep::Done(Err(e)),
            Ok(existing) => {
                if let Some(other) = existing {
                    if other.id != self.user.id {
                        let msg = String::from_str("El email '").concat(self.email.as_str()).concat(
                            "' ya está registrado",
                        );
                        return UserUpdateStep::Done(Err(DomainError::Conflict(msg)));
                    }
                }
                let mut user = self.user;
                user.email = self.email;
                user.updated_at = now_micros();
                UserUpdateStep::Save(user)
            },
        }
    }
}

} // verus!
