pub mod auth;
pub mod response;
