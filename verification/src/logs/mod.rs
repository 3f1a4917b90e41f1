//! The `Log` object: the audit trail of what users did to which resource.

pub mod application;
pub mod domain;
pub mod infrastructure;
