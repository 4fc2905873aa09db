//! The screens that the application shares between its callers.

pub mod setup;
pub mod stream;
