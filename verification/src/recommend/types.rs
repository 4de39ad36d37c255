//! Records produced by the recommendation engine.
use vstd::prelude::*;

use crate::apply::types::{sv, PendingConfig, SwapfileConfig, SwapfileConfigView};
use crate::recommend::scales::RecommendSizeScales;

verus! {

pub const OVERFLOW_SWAPFILE_PATH: &'static str = "/swap/swapfile";
pub const OVERFLOW_SWAP_PRIORITY: i32 = 10;
pub const OVERFLOW_SWAPFILE_MAX_MB: u64 = 8192;
pub const OVERFLOW_SWAPFILE_HIGH_MAX_MB: u64 = 16384;
pub const OVERFLOW_FREE_SPACE_MARGIN_MB: u64 = 512;

#[derive(Debug, Clone, Copy, PartialEq, Eq, Structural)]
pub enum RecommendProfile {
    Conservative,
    Performance,
    Constrained,
}

#[derive(Debug, Clone)]
pub struct RecommendationItem {
    pub category: String,
    pub summary: String,
    pub detail: String,
    pub will_stage: bool,
    pub reference: Option<String>,
}

#[derive(Debug, Clone)]
pub struct SystemContext {
    pub mem_total_bytes: u64,
    pub mem_available_bytes: u64,
    pub has_active_zram: bool,
    pub has_disk_swap: bool,
    pub distro: String,
    pub root_filesystem: Option<String>,
    pub zram_backend: String,
    pub profile: String,
    pub immutable_os: bool,
    pub etc_writable: bool,
}

#[derive(Debug, Clone)]
pub struct RecommendedDefaults {
    pub pending: PendingConfig,
    pub items: Vec<RecommendationItem>,
    pub context: SystemContext,
    pub size_scales: RecommendSizeScales,
}

#[derive(Debug, Clone)]
pub enum OverflowDecision {
    Stage(SwapfileConfig),
    SkipActiveDiskSwap,
    SkipConfiguredDiskSwap { paths: Vec<String> },
    SkipInsufficientSpace { required_mb: u64, available_mb: u64 },
    SkipZeroSize,
}

/// A recommendation item as text.
pub struct ItemView {
    pub category: Seq<char>,
    pub summary: Seq<char>,
    pub detail: Seq<char>,
    pub will_stage: bool,
    pub reference: Option<Seq<char>>,
}

impl View for RecommendationItem {
    type V = ItemView;

    open spec fn view(&self) -> ItemView {
        ItemView {
            category: self.category@,
            summary: self.summary@,
            detail: self.detail@,
            will_stage: self.will_stage,
            reference: sv(self.reference),
        }
    }
}

pub open spec fn items_view(v: Seq<RecommendationItem>) -> Seq<ItemView> {
    v.map_values(|i: RecommendationItem| i@)
}

/// An overflow decision with its text as sequences.
pub enum DecisionView {
    Stage(SwapfileConfigView),
    SkipActiveDiskSwap,
    SkipConfiguredDiskSwap(Seq<Seq<char>>),
    SkipInsufficientSpace(u64, u64),
    SkipZeroSize,
}

impl View for OverflowDecision {
    type V = DecisionView;

    open spec fn view(&self) -> DecisionView {
        match self {
            OverflowDecision::Stage(c) => DecisionView::Stage(c@),
            OverflowDecision::SkipActiveDiskSwap => DecisionView::SkipActiveDiskSwap,
            OverflowDecision::SkipConfiguredDiskSwap { paths } => DecisionView::SkipConfiguredDiskSwap(
                paths@.map_values(|p: String| p@),
            ),
            OverflowDecision::SkipInsufficientSpace { required_mb, available_mb } =>
                DecisionView::SkipInsufficientSpace(*required_mb, *available_mb),
            OverflowDecision::SkipZeroSize => DecisionView::SkipZeroSize,
        }
    }
}

} // verus!
