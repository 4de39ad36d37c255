//! Records of linked optimization.
use vstd::prelude::*;

use super::types::RecommendProfile;
use crate::apply::types::{PendingConfig, PendingView};
use crate::text::{chars_of, eq_str};

verus! {

/// Which field the user just edited (the anchor is kept when valid).
#[derive(Debug, Clone, Copy, PartialEq, Eq, Structural)]
pub enum LinkedAnchor {
    ZramSize,
    ZramAlgo,
    ZramPriority,
    Sysctl,
    SwapfileCreate,
    SwapfileResize,
    SwapfileRemove,
}

pub open spec fn anchor_name(a: LinkedAnchor) -> Seq<char> {
    match a {
        LinkedAnchor::ZramSize => "zram_size"@,
        LinkedAnchor::ZramAlgo => "zram_algo"@,
        LinkedAnchor::ZramPriority => "zram_priority"@,
        LinkedAnchor::Sysctl => "sysctl"@,
        LinkedAnchor::SwapfileCreate => "swapfile_create"@,
        LinkedAnchor::SwapfileResize => "swapfile_resize"@,
        LinkedAnchor::SwapfileRemove => "swapfile_remove"@,
    }
}

pub open spec fn spec_parse_anchor(v: Seq<char>) -> Option<LinkedAnchor> {
    if v == "zram_size"@ {
        Some(LinkedAnchor::ZramSize)
    } else if v == "zram_algo"@ {
        Some(LinkedAnchor::ZramAlgo)
    } else if v == "zram_priority"@ {
        Some(LinkedAnchor::ZramPriority)
    } else if v == "sysctl"@ {
        Some(LinkedAnchor::Sysctl)
    } else if v == "swapfile_create"@ {
        Some(LinkedAnchor::SwapfileCreate)
    } else if v == "swapfile_resize"@ {
        Some(LinkedAnchor::SwapfileResize)
    } else if v == "swapfile_remove"@ {
        Some(LinkedAnchor::SwapfileRemove)
    } else {
        None
    }
}

impl LinkedAnchor {
    pub fn parse(value: &str) -> (r: Option<Self>)
        ensures
            r == spec_parse_anchor(value@),
    {
        let v = chars_of(value);
        if eq_str(&v, "zram_size") {
            Some(LinkedAnchor::ZramSize)
        } else if eq_str(&v, "zram_algo") {
            Some(LinkedAnchor::ZramAlgo)
        } else if eq_str(&v, "zram_priority") {
            Some(LinkedAnchor::ZramPriority)
        } else if eq_str(&v, "sysctl") {
            Some(LinkedAnchor::Sysctl)
        } else if eq_str(&v, "swapfile_create") {
            Some(LinkedAnchor::SwapfileCreate)
        } else if eq_str(&v, "swapfile_resize") {
            Some(LinkedAnchor::SwapfileResize)
        } else if eq_str(&v, "swapfile_remove") {
            Some(LinkedAnchor::SwapfileRemove)
        } else {
            None
        }
    }

    pub fn as_str(self) -> (s: &'static str)
        ensures
            s@ == anchor_name(self),
    {
        match self {
            LinkedAnchor::ZramSize => "zram_size",
            LinkedAnchor::ZramAlgo => "zram_algo",
            LinkedAnchor::ZramPriority => "zram_priority",
            LinkedAnchor::Sysctl => "sysctl",
            LinkedAnchor::SwapfileCreate => "swapfile_create",
            LinkedAnchor::SwapfileResize => "swapfile_resize",
            LinkedAnchor::SwapfileRemove => "swapfile_remove",
        }
    }
}

/// Every anchor's name parses back to that anchor.
pub proof fn lemma_anchor_name_roundtrip(a: LinkedAnchor)
    ensures
        spec_parse_anchor(anchor_name(a)) == Some(a),
{
    reveal_strlit("zram_size");
    reveal_strlit("zram_algo");
    reveal_strlit("zram_priority");
    reveal_strlit("sysctl");
    reveal_strlit("swapfile_create");
    reveal_strlit("swapfile_resize");
    reveal_strlit("swapfile_remove");
    assert("zram_size"@[5] != "zram_algo"@[5]);
    assert("swapfile_create"@[9] != "swapfile_resize"@[9]);
    assert("swapfile_create"@[9] != "swapfile_remove"@[9]);
    assert("swapfile_resize"@[11] != "swapfile_remove"@[11]);
    assert("zram_size"@.len() != "zram_priority"@.len());
    assert("sysctl"@.len() != "zram_priority"@.len());
}

/// What linked optimization needs to know of the host.
#[derive(Debug, Clone, Copy)]
pub struct LinkedOptimizeContext {
    pub profile: RecommendProfile,
    pub mem_total_kb: u64,
    pub has_active_zram: bool,
    pub has_disk_swap: bool,
    pub hibernate_blocks_zram: bool,
    pub etc_writable: bool,
    pub immutable_os: bool,
}

#[derive(Debug, Clone)]
pub struct LinkedOptimizeResult {
    pub pending: PendingConfig,
    pub adjustments: Vec<String>,
}

/// A pending configuration with the adjustment messages so far.
pub struct Linked {
    pub pending: PendingView,
    pub adj: Seq<Seq<char>>,
}

pub open spec fn strs(v: Seq<String>) -> Seq<Seq<char>> {
    v.map_values(|s: String| s@)
}

pub open spec fn linked(p: PendingConfig, adj: Vec<String>) -> Linked {
    Linked { pending: p@, adj: strs(adj@) }
}

} // verus!
