//! Hover documentation service for htmx attributes in HTML documents.
//!
//! A document's text is parsed into a concrete syntax tree; a cursor
//! position is resolved to the smallest named token under it; the token's
//! text is matched against a fixed catalog of recognized attribute names,
//! and the matching documentation is returned.

pub mod backend;
pub mod constants;
pub mod store;
pub mod tree;
pub mod utils;
