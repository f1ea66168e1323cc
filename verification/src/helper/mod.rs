pub mod crypto;
pub mod sms;
pub mod github;
pub mod tools;
