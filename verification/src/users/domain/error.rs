//! Business errors of the users domain.

use vstd::prelude::*;
use vstd::string::*;

verus! {

/// The infrastructure adapters (HTTP, database) translate these errors
/// into their own form without the domain knowing about it.
#[derive(Debug)]
pub enum DomainError {
    NotFound,
    Validation(String),
    Conflict(String),
    Repository(String),
    Unauthorized,
    Hashing(String),
}

/// The text each error shows.
pub open spec fn user_error_text(e: DomainError) -> Seq<char> {
    match e {
        DomainError::NotFound => "Usuario no encontrado"@,
        DomainError::Validation(m) => "Error de validación: "@ + m@,
        DomainError::Conflict(m) => "Conflicto: "@ + m@,
        DomainError::Repository(m) => "Error de repositorio: "@ + m@,
        DomainError::Unauthorized => "Credenciales inválidas"@,
        DomainError::Hashing(m) => "Error al hashear la contraseña: "@ + m@,
    }
}

impl DomainError {
    /// The text of this error.
    pub fn message(&self) -> (r: String)
        ensures
            r@ == user_error_text(*self),
    {
        match self {
            DomainError::NotFound => String::from_str("Usuario no encontrado"),
            DomainError::Validation(m) => String::from_str("Error de validación: ").concat(m.as_str()),
            DomainError::Conflict(m) => String::from_str("Conflicto: ").concat(m.as_str()),
            DomainError::Repository(m) => String::from_str("Error de repositorio: ").concat(m.as_str()),
            DomainError::Unauthorized => String::from_str("Credenciales inválidas"),
            DomainError::Hashing(m) => String::from_str("Error al hashear la contraseña: ").concat(m.as_str()),
        }
    }
}

} // verus!
