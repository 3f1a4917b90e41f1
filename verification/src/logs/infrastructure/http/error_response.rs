//! Translation of log `DomainError`s into HTTP answers.

use vstd::prelude::*;
use vstd::string::*;

use crate::logs::domain::{log_error_text, DomainError};

verus! {

/// Body of every error answer.
pub struct ErrorResponse {
    pub error: String,
}

/// The HTTP status each error is answered with.
pub open spec fn log_error_status(e: DomainError) -> u16 {
    match e {
        DomainError::NotFound => 404,
        DomainError::Validation(_) => 400,
        DomainError::Repository(_) => 500,
    }
}

/// The message each error is answered with; repository failures stay
/// inside the server.
pub open spec fn log_error_answer(e: DomainError) -> Seq<char> {
    match e {
        DomainError::NotFound => log_error_text(e),
        DomainError::Validation(m) => m@,
        DomainError::Repository(_) => "Error interno del servidor"@,
    }
}

/// How each log error is answered: a missing entry is 404, invalid
/// details 400 with the validation message itself; storage failures are
/// 500 with a fixed text that reveals nothing of their cause. An error is
/// answered with a 4xx status exactly when the client caused it.
pub proof fn lemma_log_error_answers(e: DomainError)
    ensures
        e is NotFound ==> log_error_status(e) == 404,
        e matches DomainError::Validation(m) ==> log_error_status(e) == 400 && log_error_answer(e) == m@,
        e is Repository ==> log_error_status(e) == 500
            && log_error_answer(e) == "Error interno del servidor"@,
        (400 <= log_error_status(e) < 500) <==> !(e is Repository),
{
}

/// Status code and body for a log error.
pub fn map_domain_error(err: DomainError) -> (r: (u16, ErrorResponse))
    ensures
        r.0 == log_error_status(err),
        r.1.error@ == log_error_answer(err),
{
    match err {
        DomainError::NotFound => (404, ErrorResponse { error: err.message() }),
        DomainError::Validation(m) => (400, ErrorResponse { error: m }),
        DomainError::Repository(_) => (500, ErrorResponse { error: String::from_str("Error interno del servidor") }),
    }
}

} // verus!
