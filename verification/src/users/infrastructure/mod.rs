//! Adapters of `User`: the HTTP layer (request and response shapes,
//! error mapping, bearer-token authentication) and the meaning of the
//! store's answers.

pub mod http;
pub mod storage;
