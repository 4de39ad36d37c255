//! Configuration snapshots: capture, index, labels and restore plans.

pub mod create;
pub mod index;
pub mod paths;
pub mod restore;
pub mod types;
