//! Decisions of the log use cases.

use vstd::prelude::*;
use vstd::string::*;

use crate::logs::domain::{ActionLog, DomainError, Log, LogFilter, ResourceLog};
use crate::shared::pagination::{normalized_page, normalized_page_size, Pagination};
use crate::shared::text::{all_white_space, lemma_trim_ignores_padding, trim, trimmed_utf8_len_at_least, utf8_len};

verus! {

/// Minimum length (UTF-8 bytes, surrounding whitespace aside) of the details.
pub const MIN_DETAILS_LEN: u8 = 3;

/// Details are valid when, trimmed, they have at least `MIN_DETAILS_LEN` bytes.
pub open spec fn valid_details(s: Seq<char>) -> bool {
    utf8_len(trim(s)) >= MIN_DETAILS_LEN
}

pub open spec fn details_rule_text() -> Seq<char> {
    "Los detalles deben tener al menos 3 caracteres"@
}

/// The details rule in full: details are accepted exactly when, once
/// trimmed, they take at least 3 bytes in UTF-8; so details of only
/// whitespace are always refused.
pub proof fn lemma_details_rule(s: Seq<char>)
    ensures
        valid_details(s) <==> utf8_len(trim(s)) >= 3,
        trim(s).len() == 0 ==> !valid_details(s),
{
    if trim(s).len() == 0 {
        assert(trim(s) =~= Seq::<char>::empty());
        assert(utf8_len(Seq::<char>::empty()) == 0);
    }
}

/// Details are judged without the whitespace around them.
pub proof fn lemma_details_rule_ignores_padding(w1: Seq<char>, s: Seq<char>, w2: Seq<char>)
    requires
        all_white_space(w1),
        all_white_space(w2),
    ensures
        valid_details(w1 + s + w2) == valid_details(s),
{
    lemma_trim_ignores_padding(w1, s, w2);
}

/// Decisions of the log use cases.
pub struct LogService;

impl LogService {
    /// Checks the details: at least `MIN_DETAILS_LEN` bytes once trimmed.
    pub fn validate_details(details: &str) -> (r: Result<(), DomainError>)
        ensures
            r is Ok <==> valid_details(details@),
            r matches Err(e) ==> (e matches DomainError::Validation(m) && m@ == details_rule_text()),
    {
        if !trimmed_utf8_len_at_least(details, MIN_DETAILS_LEN) {
            return Err(DomainError::Validation(String::from_str("Los detalles deben tener al menos 3 caracteres")));
        }
        Ok(())
    }

    /// A new entry of the trail, to be stored (the repository's answer is
    /// the outcome), or the validation error of its details.
    pub fn create_log(
        user_id: Option<u128>,
        action: ActionLog,
        resource: ResourceLog,
        resource_id: Option<u128>,
        details: String,
    ) -> (r: Result<Log, DomainError>)
        ensures
            !valid_details(details@) ==> (r matches Err(DomainError::Validation(m)) && m@ == details_rule_text()),
            valid_details(details@) ==> (r matches Ok(l) && {
                &&& l.user_id == user_id
                &&& l.action == action
                &&& l.resource == resource
                &&& l.resource_id == resource_id
                &&& l.details == details
            }),
    {
        if let Err(e) = Self::validate_details(details.as_str()) {
            return Err(e);
        }
        Ok(Log::new(user_id, action, resource, resource_id, details))
    }

    /// The entry a lookup by id found, or `NotFound`.
    pub fn found_or_not_found(found: Result<Option<Log>, DomainError>) -> (r: Result<Log, DomainError>)
        ensures
            found matches Err(e) ==> r == Err::<Log, DomainError>(e),
            found matches Ok(Some(l)) ==> r == Ok::<Log, DomainError>(l),
            found matches Ok(None) ==> r == Err::<Log, DomainError>(DomainError::NotFound),
    {
        match found {
            Err(e) => Err(e),
            Ok(Some(l)) => Ok(l),
            Ok(None) => Err(DomainError::NotFound),
        }
    }

    /// Starts a listing of the entries of a user: the selection, which
    /// both the page and the total count go by, and the page.
    pub fn get_all_logs_by_user_id(user_id: u128, page: Option<i64>, page_size: Option<i64>) -> (r: (LogFilter, Pagination))
        ensures
            r.0 == LogFilter::ByUser(user_id),
            r.1.page_spec() == normalized_page(page),
            r.1.page_size_spec() == normalized_page_size(page_size),
    {
        (LogFilter::ByUser(user_id), Pagination::new(page, page_size))
    }

    /// Starts a listing of the entries about a kind of resource: the
    /// selection, which both the page and the total count go by, and the page.
    pub fn get_all_logs_by_resource(resource: &ResourceLog, page: Option<i64>, page_size: Option<i64>) -> (r: (LogFilter, Pagination))
        ensures
            r.0 == LogFilter::ByResource(*resource),
            r.1.page_spec() == normalized_page(page),
            r.1.page_size_spec() == normalized_page_size(page_size),
    {
        (LogFilter::ByResource(*resource), Pagination::new(page, page_size))
    }

    /// Starts a listing of the entries of one action: the selection, which
    /// both the page and the total count go by, and the page.
    pub fn get_all_logs_by_action(action: &ActionLog, page: Option<i64>, page_size: Option<i64>) -> (r: (LogFilter, Pagination))
        ensures
            r.0 == LogFilter::ByAction(*action),
            r.1.page_spec() == normalized_page(page),
            r.1.page_size_spec() == normalized_page_size(page_size),
    {
        (LogFilter::ByAction(*action), Pagination::new(page, page_size))
    }
}

} // verus!
