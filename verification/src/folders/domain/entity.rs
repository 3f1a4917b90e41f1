//! The `Folder` entity.

use vstd::prelude::*;

use crate::shared::ids::{new_uuid_v4, now_micros, UUID_V4_FIXED_BITS, UUID_V4_FIXED_MASK};

verus! {

/// A folder of one user. Ids are UUIDs as 128-bit values, timestamps are
/// microseconds since the Unix epoch.
#[derive(Debug, Clone)]
pub struct Folder {
    pub id: u128,
    pub user_id: u128,
    pub name: String,
    pub created_at: i64,
    pub updated_at: i64,
}

impl Folder {
    /// A new folder of `user_id`, with a fresh random id and both
    /// timestamps set to now.
    pub fn new(user_id: u128, name: String) -> (f: Self)
        ensures
            f.user_id == user_id,
            f.name == name,
            f.created_at == f.updated_at,
            f.id & UUID_V4_FIXED_MASK == UUID_V4_FIXED_BITS,
    {
        let now = now_micros();
        Folder { id: new_uuid_v4(), user_id, name, created_at: now, updated_at: now }
    }
}

} // verus!
