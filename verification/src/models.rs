//! The data model: request/response-scoped value records.

pub mod film;
pub mod user;
