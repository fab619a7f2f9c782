//! Operations on documents.

pub mod batch;
pub mod conditional;
pub mod methods;
pub mod response;
pub mod types;
