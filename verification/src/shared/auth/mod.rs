//! Access tokens: their claims, their errors and the service that signs
//! and checks them.

pub mod claims;
pub mod error;
pub mod jwt;
