//! Typed records of a content-management backend, decoded from the
//! schema-flexible documents that a document store returns, and the
//! validation of inbound page requests.

pub mod decode;
pub mod error;
pub mod laws;
pub mod models;
pub mod store_page_request;
pub mod validation;
pub mod value;
