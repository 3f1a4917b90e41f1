pub mod dto;
pub mod error_response;
