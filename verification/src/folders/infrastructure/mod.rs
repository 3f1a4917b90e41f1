//! Adapters of `Folder`: the HTTP layer (request and response shapes,
//! error mapping) and the meaning of the store's answers.

pub mod http;
pub mod storage;
