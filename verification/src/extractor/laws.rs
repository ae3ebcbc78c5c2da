//! What holds of extraction on every document.

pub mod parameters;
pub mod paths;
pub mod responses;
