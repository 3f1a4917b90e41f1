//! Domain layer of `Folder`: entity and errors.

mod entity;
mod error;

pub use entity::Folder;
pub use error::{folder_error_text, DomainError};
