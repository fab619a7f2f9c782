//! Client-side protocol layer for a document database: typed operations are
//! rendered to request descriptors, and decoded server responses are turned
//! into typed results or structured errors.

pub mod collection;
pub mod document;
pub mod error;
pub mod method;
pub mod params;
pub mod protocol;
