//! Domain layer of `User`: entity and errors.

mod entity;
mod error;

pub use entity::User;
pub use error::{user_error_text, DomainError};
