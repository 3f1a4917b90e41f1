//! Request and response shapes of the logs HTTP adapter.

use vstd::prelude::*;

use crate::logs::domain::{ActionLog, Log, ResourceLog};
use crate::shared::pagination::PaginatedResult;

verus! {

/// Query of `GET /api/v1/logs/...?page=&page_size=`.
pub struct PaginationQuery {
    pub page: Option<i64>,
    pub page_size: Option<i64>,
}

/// Public view of an entry of the trail.
pub struct LogResponse {
    pub id: u128,
    pub user_id: Option<u128>,
    pub action: ActionLog,
    pub resource: ResourceLog,
    pub resource_id: Option<u128>,
    pub details: String,
    pub created_at: i64,
}

impl From<Log> for LogResponse {
    fn from(log: Log) -> (r: Self)
        ensures
            r.id == log.id,
            r.user_id == log.user_id,
            r.action == log.action,
            r.resource == log.resource,
            r.resource_id == log.resource_id,
            r.details == log.details,
            r.created_at == log.created_at,
    {
        LogResponse {
            id: log.id,
            user_id: log.user_id,
            action: log.action,
            resource: log.resource,
            resource_id: log.resource_id,
            details: log.details,
            created_at: log.created_at,
        }
    }
}

impl vstd::std_specs::convert::FromSpecImpl<Log> for LogResponse {
    open spec fn obeys_from_spec() -> bool {
        true
    }

    open spec fn from_spec(log: Log) -> Self {
        LogResponse {
            id: log.id,
            user_id: log.user_id,
            action: log.action,
            resource: log.resource,
            resource_id: log.resource_id,
            details: log.details,
            created_at: log.created_at,
        }
    }
}

/// An entry's answer carries the entry as it is: who acted, on what
/// resource, what was done, the details and the time, none swapped.
pub proof fn lemma_log_response_keeps_fields(log: Log, r: LogResponse)
    requires
        call_ensures(LogResponse::from, (log,), r),
    ensures
        r.id == log.id,
        r.user_id == log.user_id,
        r.action == log.action,
        r.resource == log.resource,
        r.resource_id == log.resource_id,
        r.details == log.details,
        r.created_at == log.created_at,
{
}

/// Answer of the log listings.
pub type PaginatedLogsResponse = PaginatedResult<LogResponse>;

} // verus!
