//! Business errors of the logs domain.

use vstd::prelude::*;
use vstd::string::*;

verus! {

#[derive(Debug)]
pub enum DomainError {
    NotFound,
    Validation(String),
    Repository(String),
}

/// The text each error shows.
pub open spec fn log_error_text(e: DomainError) -> Seq<char> {
    match e {
        DomainError::NotFound => "Log no encontrado"@,
        DomainError::Validation(m) => "Error de validación: "@ + m@,
        DomainError::Repository(m) => "Error de repositorio: "@ + m@,
    }
}

impl DomainError {
    /// The text of this error.
    pub fn message(&self) -> (r: String)
        ensures
            r@ == log_error_text(*self),
    {
        match self {
            DomainError::NotFound => String::from_str("Log no encontrado"),
            DomainError::Validation(m) => String::from_str("Error de validación: ").concat(m.as_str()),
            DomainError::Repository(m) => String::from_str("Error de repositorio: ").concat(m.as_str()),
        }
    }
}

} // verus!
