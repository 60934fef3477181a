pub mod extractor;
pub mod laws;
pub mod query;
pub mod service;
