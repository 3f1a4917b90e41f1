//! Domain layer of `Log`: entity, its kinds and errors.

mod entity;
mod error;

pub use entity::{ActionLog, Log, LogFilter, ResourceLog};
pub use error::{log_error_text, DomainError};
