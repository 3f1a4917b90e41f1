//! HTTP adapter of `Log`: request and response shapes and error mapping.

pub mod http;
