//! Translation of folder `DomainError`s into HTTP answers.

use vstd::prelude::*;
use vstd::string::*;

use crate::folders::domain::{folder_error_text, DomainError};

verus! {

/// Body of every error answer.
pub struct ErrorResponse {
    pub error: String,
}

/// The HTTP status each error is answered with.
pub open spec fn folder_error_status(e: DomainError) -> u16 {
    match e {
        DomainError::NotFound => 404,
        DomainError::Validation(_) => 400,
        DomainError::Conflict(_) => 409,
        DomainError::Repository(_) => 500,
    }
}

/// The message each error is answered with; repository failures stay
/// inside the server.
pub open spec fn folder_error_answer(e: DomainError) -> Seq<char> {
    match e {
        DomainError::NotFound => folder_error_text(e),
        DomainError::Validation(m) => m@,
        DomainError::Conflict(m) => m@,
        DomainError::Repository(_) => "Error interno del servidor"@,
    }
}

/// How each folder error is answered: a missing folder is 404, an
/// invalid name 400 with the validation message itself, a taken name 409
/// with its message; storage failures are 500 with a fixed text that
/// reveals nothing of their cause. An error is answered with a 4xx status
/// exactly when the client caused it.
pub proof fn lemma_folder_error_answers(e: DomainError)
    ensures
        e is NotFound ==> folder_error_status(e) == 404,
        e matches DomainError::Validation(m) ==> folder_error_status(e) == 400 && folder_error_answer(e) == m@,
        e matches DomainError::Conflict(m) ==> folder_error_status(e) == 409 && folder_error_answer(e) == m@,
        e is Repository ==> folder_error_status(e) == 500
            && folder_error_answer(e) == "Error interno del servidor"@,
        (400 <= folder_error_status(e) < 500) <==> !(e is Repository),
{
}

/// Status code and body for a folder error.
pub fn map_domain_error(err: DomainError) -> (r: (u16, ErrorResponse))
    ensures
        r.0 == folder_error_status(err),
        r.1.error@ == folder_error_answer(err),
{
    match err {
        DomainError::NotFound => (404, ErrorResponse { error: err.message() }),
        DomainError::Validation(m) => (400, ErrorResponse { error: m }),
        DomainError::Conflict(m) => (409, ErrorResponse { error: m }),
        DomainError::Repository(_) => (500, ErrorResponse { error: String::from_str("Error interno del servidor") }),
    }
}

} // verus!
