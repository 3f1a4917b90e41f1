//! Application layer of `Folder`: the decisions of its use cases.

pub mod service;
