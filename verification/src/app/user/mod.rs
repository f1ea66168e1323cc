//! The basic user endpoints.
pub mod schemas;
pub mod view;
