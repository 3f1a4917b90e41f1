//! What no business object owns in particular: pagination, text rules,
//! identifiers and token handling.

pub mod pagination;
pub mod text;
pub mod digits;
pub mod ids;
pub mod json;
pub mod auth;
