pub mod auth;
pub mod dto;
pub mod error_response;
