//! Translation of user `DomainError`s into HTTP answers.

use vstd::prelude::*;
use vstd::string::*;

use crate::users::domain::{user_error_text, DomainError};

verus! {

/// Body of every error answer.
pub struct ErrorResponse {
    pub error: String,
}

/// The text shown for failures that stay inside the server.
pub open spec fn internal_error_text() -> Seq<char> {
    "Error interno del servidor"@
}

/// The HTTP status each error is answered with.
pub open spec fn user_error_status(e: DomainError) -> u16 {
    match e {
        DomainError::NotFound => 404,
        DomainError::Validation(_) => 400,
        DomainError::Conflict(_) => 409,
        DomainError::Repository(_) => 500,
        DomainError::Unauthorized => 401,
        DomainError::Hashing(_) => 500,
    }
}

/// The message each error is answered with: what the client can act on,
/// and nothing of the server's internals.
pub open spec fn user_error_answer(e: DomainError) -> Seq<char> {
    match e {
        DomainError::Validation(m) => m@,
        DomainError::Conflict(m) => m@,
        DomainError::Repository(_) => internal_error_text(),
        DomainError::Hashing(_) => internal_error_text(),
        _ => user_error_text(e),
    }
}

/// How each user error is answered: a missing user is 404, invalid data
/// 400 with the validation message itself, a taken email 409 with its
/// message, bad credentials 401; failures inside the server (storage,
/// hashing) are 500 and show a fixed text that reveals nothing of their
/// cause. An error is answered with a 4xx status exactly when the client
/// caused it.
pub proof fn lemma_user_error_answers(e: DomainError)
    ensures
        e is NotFound ==> user_error_status(e) == 404,
        e matches DomainError::Validation(m) ==> user_error_status(e) == 400 && user_error_answer(e) == m@,
        e matches DomainError::Conflict(m) ==> user_error_status(e) == 409 && user_error_answer(e) == m@,
        e is Unauthorized ==> user_error_status(e) == 401,
        (e is Repository || e is Hashing) ==> user_error_status(e) == 500
            && user_error_answer(e) == "Error interno del servidor"@,
        (400 <= user_error_status(e) < 500) <==> !(e is Repository || e is Hashing),
{
}

/// Status code and body for a user error.
pub fn map_domain_error(err: DomainError) -> (r: (u16, ErrorResponse))
    ensures
        r.0 == user_error_status(err),
        r.1.error@ == user_error_answer(err),
{
    let status: u16 = match &err {
        DomainError::NotFound => 404,
        DomainError::Validation(_) => 400,
        DomainError::Conflict(_) => 409,
        DomainError::Repository(_) => 500,
        DomainError::Unauthorized => 401,
        DomainError::Hashing(_) => 500,
    };
    let message = match err {
        DomainError::Validation(m) => m,
        DomainError::Conflict(m) => m,
        DomainError::Repository(_) => String::from_str("Error interno del servidor"),
        DomainError::Hashing(_) => String::from_str("Error interno del servidor"),
        other => other.message(),
    };
    (status, ErrorResponse { error: message })
}

} // verus!
