//! The `Folder` object: folders belong to one user, and every use case
//! works within the folders of the user who asks.

pub mod application;
pub mod domain;
pub mod infrastructure;
