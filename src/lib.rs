//! Resolution of an application's build configuration: a generic document
//! model with JSON merge-patch composition, rendering of schema violations,
//! the ordered resolution pipeline and the single-slot configuration cache.

pub mod doc;
pub mod merge_laws;
pub mod report;
pub mod resolve;
pub mod cache;
