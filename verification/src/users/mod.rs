//! The `User` object: its entity and errors, the decisions of its use
//! cases (registration, profile, listing, deletion, login) and the
//! mapping of its errors to HTTP answers.

pub mod application;
pub mod domain;
pub mod infrastructure;
