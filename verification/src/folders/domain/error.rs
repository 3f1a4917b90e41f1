//! Business errors of the folders domain.

use vstd::prelude::*;
use vstd::string::*;

verus! {

#[derive(Debug)]
pub enum DomainError {
    /// No such folder (for this user).
    NotFound,
    /// The input is not valid.
    Validation(String),
    /// A folder with that name already exists.
    Conflict(String),
    /// The repository failed.
    Repository(String),
}

/// The text each error shows.
pub open spec fn folder_error_text(e: DomainError) -> Seq<char> {
    match e {
        DomainError::NotFound => "Folder no encontrado"@,
        DomainError::Validation(m) => "Error de validación: "@ + m@,
        DomainError::Conflict(m) => "Conflicto: "@ + m@,
        DomainError::Repository(m) => "Error de repositorio: "@ + m@,
    }
}

impl DomainError {
    /// The text of this error.
    pub fn message(&self) -> (r: String)
        ensures
            r@ == folder_error_text(*self),
    {
        match self {
            DomainError::NotFound => String::from_str("Folder no encontrado"),
            DomainError::Validation(m) => String::from_str("Error de validación: ").concat(m.as_str()),
            DomainError::Conflict(m) => String::from_str("Conflicto: ").concat(m.as_str()),
            DomainError::Repository(m) => String::from_str("Error de repositorio: ").concat(m.as_str()),
        }
    }
}

} // verus!
