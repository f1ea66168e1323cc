//! The basic handlers.
pub mod user;
