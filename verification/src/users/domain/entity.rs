//! The `User` entity.

use vstd::prelude::*;

use crate::shared::ids::{new_uuid_v4, now_micros, UUID_V4_FIXED_BITS, UUID_V4_FIXED_MASK};

verus! {

/// A registered user. The id is a UUID as a 128-bit value and the
/// timestamps are microseconds since the Unix epoch.
///
/// `password_hash` never leaves the system: the HTTP adapters map this
/// entity to a response that omits it.
#[derive(Debug, Clone)]
pub struct User {
    pub id: u128,
    pub username: String,
    pub email: String,
    pub password_hash: String,
    pub created_at: i64,
    pub updated_at: i64,
}

impl User {
    /// A new user with an already computed password hash, a fresh random
    /// id and both timestamps set to now.
    pub fn new(username: String, email: String, password_hash: String) -> (u: Self)
        ensures
            u.username == username,
            u.email == email,
            u.password_hash == password_hash,
            u.created_at == u.updated_at,
            u.id & UUID_V4_FIXED_MASK == UUID_V4_FIXED_BITS,
    {
        let now = now_micros();
        User {
            id: new_uuid_v4(),
            username,
            email,
            password_hash,
            created_at: now,
            updated_at: now,
        }
    }
}

} // verus!
