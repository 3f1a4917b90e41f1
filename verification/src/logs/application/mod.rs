//! Application layer of `Log`: the decisions of its use cases.

pub mod service;
