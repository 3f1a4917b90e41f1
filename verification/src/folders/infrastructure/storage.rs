//! What the folder store's answers mean for the domain: the decisions the
//! database adapter makes on a failed write, an update that found no row
//! and a delete that removed none.

use vstd::prelude::*;
use vstd::string::*;

use crate::folders::application::service::name_taken_text;
use crate::folders::domain::{DomainError, Folder};

verus! {

/// A failed insert or update of a folder named `name`: a uniqueness
/// violation means its user already has a folder with that name; any
/// other failure is a repository error with the driver's message `detail`.
pub fn write_error(unique_violation: bool, name: &str, detail: String) -> (r: DomainError)
    ensures
        unique_violation ==> (r matches DomainError::Conflict(m) && m@ == name_taken_text(name@)),
        !unique_violation ==> r == DomainError::Repository(detail),
{
    if unique_violation {
        DomainError::Conflict(String::from_str("Ya existe un/a folder con el name '").concat(name).concat("'"))
    } else {
        DomainError::Repository(detail)
    }
}

/// The row an update returned: none means there was no folder with that id.
pub fn updated_row(row: Option<Folder>) -> (r: Result<Folder, DomainError>)
    ensures
        row matches Some(f) ==> r == Ok::<Folder, DomainError>(f),
        row is None ==> r == Err::<Folder, DomainError>(DomainError::NotFound),
{
    match row {
        Some(f) => Ok(f),
        None => Err(DomainError::NotFound),
    }
}

/// A delete that removed `rows` rows: none means there was no folder with
/// that id.
pub fn deleted_rows(rows: u64) -> (r: Result<(), DomainError>)
    ensures
        rows == 0 ==> r == Err::<(), DomainError>(DomainError::NotFound),
        rows > 0 ==> r is Ok,
{
    if rows == 0 {
        Err(DomainError::NotFound)
    } else {
        Ok(())
    }
}

} // verus!
