//! Verified core of a web service for user accounts: request validation,
//! access rules, token and password handling, pagination, responses and
//! the decisions that the HTTP handlers take.
pub mod text;
pub mod project;
pub mod configs;
pub mod apps;
pub mod helper;
pub mod entity;
pub mod api_doc;
pub mod error;
pub mod response;
pub mod app;
