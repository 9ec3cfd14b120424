//! Resolution core for grid-structured content and document links.
//!
//! The library merges per-cell style overrides with container-level defaults
//! into final visual properties for table cells, and resolves symbolic link
//! targets (labels) into concrete destinations across a bounded multi-pass
//! pipeline.

pub mod align;
pub mod celled;
pub mod content;
pub mod deferred;
pub mod diag;
pub mod link;
pub mod introspection;
pub mod lang;
pub mod paint;
pub mod sides;
pub mod table;
pub mod tristate;
