//! Application layer of `User`: the decisions of its use cases.

pub mod login_service;
pub mod service;
