//! Security suite: the verified core of a credential-management service.
//!
//! Each business object (`users`, `folders`, `logs`) keeps its domain
//! types, the decisions of its use cases and the mapping of its errors to
//! HTTP answers. `shared` holds what every object reuses: pagination,
//! text rules, identifiers and JWT handling.

pub mod shared;
pub mod users;
pub mod folders;
pub mod logs;
