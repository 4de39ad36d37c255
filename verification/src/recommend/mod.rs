//! Hardware-aware recommended defaults and linked optimization.

pub mod scales;
pub mod staging;
pub mod types;
pub mod overflow;
pub mod profile;
pub mod engine_notes;
pub mod engine_build;
pub mod engine;
pub mod link_types;
pub mod link_sanitize;
pub mod link;
