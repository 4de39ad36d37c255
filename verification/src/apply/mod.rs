//! Privileged apply: staging, apply plans and helper commands.

pub mod commands;
pub mod engine;
pub mod pending;
pub mod types;

pub use pending::{last_error_path, merge_pending, merge_sysctl, pending_is_empty, stage};
pub use types::{
    ApplyRequest, ApplyResult, PendingConfig, SwapfileConfig, SwapfileResizeConfig, ZramConfig,
    PENDING_PATH, SYSCTL_PATH,
};
