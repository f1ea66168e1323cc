pub mod soft_delete;
pub mod account;
pub mod oauth_account;
