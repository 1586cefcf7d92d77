//! Language configuration registry: the catalog of supported language codes
//! and per-language configuration lookup.

pub mod catalog;
pub mod configs;
pub mod json;
pub mod laws;
pub mod registry;
