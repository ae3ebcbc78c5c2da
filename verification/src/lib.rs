//! Extraction of HTTP request descriptors from a parsed API description.
//!
//! A [`document::OpenAPI`] lists paths, the operations on them, and the
//! parameters and responses of each operation.
//! [`extractor::requests::extract_requests_from_openapi`] turns it into one
//! [`request::Request`] for each GET, PUT and POST operation, in document
//! order. Every function is proved to return what the functions of
//! [`extractor::model`] say of its input, and [`extractor::laws`] proves what
//! follows from that for every document.

pub mod document;
pub mod extractor;
pub mod reference;
pub mod request;
