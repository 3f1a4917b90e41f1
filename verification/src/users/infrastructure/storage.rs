//! What the user store's answers mean for the domain: the decisions the
//! database adapter makes on a failed write, an update that found no row
//! and a delete that removed none.

use vstd::prelude::*;
use vstd::string::*;

use crate::users::application::service::email_taken_text;
use crate::users::domain::{DomainError, User};

verus! {

/// A failed insert or update of a user with email `email`: a uniqueness
/// violation means the email is already registered; any other failure is
/// a repository error with the driver's message `detail`.
pub fn write_error(unique_violation: bool, email: &str, detail: String) -> (r: DomainError)
    ensures
        unique_violation ==> (r matches DomainError::Conflict(m) && m@ == email_taken_text(email@)),
        !unique_violation ==> r == DomainError::Repository(detail),
{
    if unique_violation {
        DomainError::Conflict(String::from_str("El email '").concat(email).concat("' ya está registrado"))
    } else {
        DomainError::Repository(detail)
    }
}

/// The row an update returned: none means there was no user with that id.
pub fn updated_row(row: Option<User>) -> (r: Result<User, DomainError>)
    ensures
        row matches Some(u) ==> r == Ok::<User, DomainError>(u),
        row is None ==> r == Err::<User, DomainError>(DomainError::NotFound),
{
    match row {
        Some(u) => Ok(u),
        None => Err(DomainError::NotFound),
    }
}

/// A delete that removed `rows` rows: none means there was no user with
/// that id.
pub fn deleted_rows(rows: u64) -> (r: Result<(), DomainError>)
    ensures
        rows == 0 ==> r == Err::<(), DomainError>(DomainError::NotFound),
        rows > 0 ==> r is Ok,
{
    if rows == 0 {
        Err(DomainError::NotFound)
    } else {
        Ok(())
    }
}

} // verus!
