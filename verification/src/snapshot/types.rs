//! Snapshot records.
use vstd::prelude::*;

use crate::error::XzramError;
use crate::status::ZramDevice;
use crate::text::{chars_of, eq_str, owned, push_str};

verus! {

pub const SNAPSHOTS_DIR: &'static str = "snapshots";
pub const DEFAULT_KEEP: usize = 50;

#[derive(Debug, Clone, Copy, PartialEq, Eq, Structural)]
pub enum SnapshotTrigger {
    AppOpen,
    PreApply,
    Manual,
}

pub open spec fn trigger_name(t: SnapshotTrigger) -> Seq<char> {
    match t {
        SnapshotTrigger::AppOpen => "app_open"@,
        SnapshotTrigger::PreApply => "pre_apply"@,
        SnapshotTrigger::Manual => "manual"@,
    }
}

pub open spec fn spec_parse_trigger(s: Seq<char>) -> Option<SnapshotTrigger> {
    if s == "app_open"@ {
        Some(SnapshotTrigger::AppOpen)
    } else if s == "pre_apply"@ {
        Some(SnapshotTrigger::PreApply)
    } else if s == "manual"@ {
        Some(SnapshotTrigger::Manual)
    } else {
        None
    }
}

impl SnapshotTrigger {
    pub fn as_str(self) -> (s: &'static str)
        ensures
            s@ == trigger_name(self),
    {
        match self {
            SnapshotTrigger::AppOpen => "app_open",
            SnapshotTrigger::PreApply => "pre_apply",
            SnapshotTrigger::Manual => "manual",
        }
    }

    /// The trigger named `s`, or a validation error naming it.
    pub fn parse(s: &str) -> (r: Result<Self, XzramError>)
        ensures
            match spec_parse_trigger(s@) {
                Some(t) => r == Ok::<SnapshotTrigger, XzramError>(t),
                None => r is Err && r->Err_0 is Validation && r->Err_0->Validation_0@ == "unknown snapshot trigger: "@
                    + s@,
            },
    {
        let c = chars_of(s);
        if eq_str(&c, "app_open") {
            Ok(SnapshotTrigger::AppOpen)
        } else if eq_str(&c, "pre_apply") {
            Ok(SnapshotTrigger::PreApply)
        } else if eq_str(&c, "manual") {
            Ok(SnapshotTrigger::Manual)
        } else {
            let mut m = owned("unknown snapshot trigger: ");
            push_str(&mut m, s);
            Err(XzramError::Validation(m))
        }
    }
}

/// Every trigger's name parses back to that trigger.
pub proof fn lemma_trigger_name_roundtrip(t: SnapshotTrigger)
    ensures
        spec_parse_trigger(trigger_name(t)) == Some(t),
{
    reveal_strlit("app_open");
    reveal_strlit("pre_apply");
    reveal_strlit("manual");
    assert("app_open"@[0] != "pre_apply"@[0]);
    assert("app_open"@[0] != "manual"@[0]);
    assert("pre_apply"@[0] != "manual"@[0]);
}

#[derive(Debug, Clone)]
pub struct SnapshotArtifact {
    pub present: bool,
    pub filename: Option<String>,
}

#[derive(Debug, Clone)]
pub struct SnapshotSwapfile {
    pub path: String,
    pub size_mb: u64,
    pub priority: i32,
    pub present_on_disk: bool,
}

#[derive(Debug, Clone)]
pub struct SnapshotMeta {
    pub id: String,
    pub created_at: String,
    pub label: String,
    pub trigger: SnapshotTrigger,
    pub state_hash: String,
    pub xzram_version: String,
    pub pending_summary: Option<String>,
    pub artifacts: SnapshotArtifacts,
    pub swapfiles: Vec<SnapshotSwapfile>,
    pub zram_devices: Vec<ZramDevice>,
}

#[derive(Debug, Clone)]
pub struct SnapshotArtifacts {
    pub zram_generator_conf: SnapshotArtifact,
    pub fstab: SnapshotArtifact,
    pub sysctl: SnapshotArtifact,
    pub zramswap: SnapshotArtifact,
}

} // verus!
