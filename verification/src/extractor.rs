//! From a parsed API description to request descriptors: what is to come
//! out (`model`), the functions that produce it (`requests`), and what
//! holds of every outcome (`laws`).

pub mod laws;
pub mod model;
pub mod requests;
