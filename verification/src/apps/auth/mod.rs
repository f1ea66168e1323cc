pub mod schemas;
pub mod jwt;
pub mod oauth2;
pub mod view;
