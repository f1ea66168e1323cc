pub mod error;
pub mod middlewares;
pub mod configs;
pub mod validation;
pub mod clock;
pub mod pagination;
pub mod extractor;
pub mod response;
pub mod json;
pub mod transaction;
pub mod kv;
