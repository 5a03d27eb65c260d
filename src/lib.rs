//! Named search engines: URL templates filled with a normalised search term,
//! and the catalog that keeps them.

pub mod catalog;
pub mod engine;
pub mod error;
pub mod store;
pub mod text;
