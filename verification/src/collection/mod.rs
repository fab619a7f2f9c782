//! Operations on collections.

pub mod methods;
pub mod types;
