pub mod text;
pub mod num;
pub mod error;
pub mod sysctl;
pub mod apply;
pub mod status;
pub mod checks;
pub mod detect;
pub mod validation;
pub mod recommend;
pub mod config;
pub mod config_roundtrip;
pub mod migrate;
pub mod swapfile_btrfs;
pub mod backend;
pub mod doctor;
pub mod swap_partition;
pub mod snapshot;
pub mod helper;
pub mod privileged;
