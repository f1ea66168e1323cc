//! The API description of the user endpoints.
use vstd::prelude::*;

verus! {

/// The API description of the user endpoints: title "Web Demo API",
/// version 1.0.0. Its OpenAPI document is derived where the HTTP server is
/// assembled.
pub struct ApiDoc;

} // verus!
