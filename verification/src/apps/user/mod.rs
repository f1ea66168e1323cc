pub mod api_doc;
pub mod constants;
pub mod schemas;
pub mod view;
