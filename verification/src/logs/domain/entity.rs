//! The `Log` entity.

use vstd::prelude::*;

use crate::shared::ids::{new_uuid_v4, now_micros, UUID_V4_FIXED_BITS, UUID_V4_FIXED_MASK};

verus! {

/// What was done.
#[derive(Debug, Clone, Copy, PartialEq, Eq, Structural)]
pub enum ActionLog {
    Create,
    Update,
    Delete,
    Get,
    GetAll,
    Login,
    Logout,
}

/// To what kind of resource.
#[derive(Debug, Clone, Copy, PartialEq, Eq, Structural)]
pub enum ResourceLog {
    Folder,
    File,
    User,
}

/// Which entries a listing selects. The same selection decides the page
/// of entries and the total they are counted against.
#[derive(Debug, Clone, Copy, PartialEq, Eq, Structural)]
pub enum LogFilter {
    /// The entries of one user.
    ByUser(u128),
    /// The entries about one kind of resource.
    ByResource(ResourceLog),
    /// The entries of one action.
    ByAction(ActionLog),
}

/// One entry of the audit trail. Ids are UUIDs as 128-bit values, the
/// timestamp is microseconds since the Unix epoch.
#[derive(Debug, Clone)]
pub struct Log {
    pub id: u128,
    pub user_id: Option<u128>,
    pub action: ActionLog,
    pub resource: ResourceLog,
    pub resource_id: Option<u128>,
    pub details: String,
    pub created_at: i64,
}

impl Log {
    /// A new entry with a fresh random id, stamped now.
    pub fn new(
        user_id: Option<u128>,
        action: ActionLog,
        resource: ResourceLog,
        resource_id: Option<u128>,
        details: String,
    ) -> (l: Self)
        ensures
            l.user_id == user_id,
            l.action == action,
            l.resource == resource,
            l.resource_id == resource_id,
            l.details == details,
            l.id & UUID_V4_FIXED_MASK == UUID_V4_FIXED_BITS,
    {
        let now = now_micros();
        Log { id: new_uuid_v4(), user_id, action, resource, resource_id, details, created_at: now }
    }
}

} // verus!
