//! The recommendation entry points, over facts gathered from the host.
use vstd::prelude::*;

use super::engine_build::{
    context_ok, recommend_from_context_scaled, report_items, report_pending, report_profile, HostFacts,
    OverflowInputs,
};
use super::scales::{size_scales_ok, RecommendScales, RecommendSizeScale};
use super::types::{items_view, RecommendedDefaults};
use crate::apply::pending::{spec_is_empty, spec_merge, stage};
use crate::apply::types::{empty_pending, zv, PendingConfig, PendingView, ZramConfig};
use crate::detect::DetectionReport;
use crate::status::StatusReport;
use crate::sysctl::SysctlValues;

verus! {

/// Everything the recommendation reads from the host.
#[derive(Debug, Clone)]
pub struct RecommendInputs {
    pub detection: DetectionReport,
    pub status: StatusReport,
    /// The live sysctl values, when they could be read.
    pub current_sysctl: Option<SysctlValues>,
    /// The zram device of the active backend, when there is one.
    pub current_zram: Option<ZramConfig>,
    pub overflow: OverflowInputs,
    pub facts: HostFacts,
}

pub open spec fn inputs_pending(i: RecommendInputs, scales: RecommendScales) -> PendingView {
    report_pending(i.detection, i.status, i.current_sysctl, zv(i.current_zram), i.overflow, scales, i.facts)
}

pub open spec fn inputs_items(i: RecommendInputs, scales: RecommendScales) -> Seq<super::types::ItemView> {
    report_items(i.detection, i.status, i.current_sysctl, zv(i.current_zram), i.overflow, scales, i.facts)
}

pub open spec fn default_scales() -> RecommendScales {
    RecommendScales { zram: RecommendSizeScale::Default, swapfile: RecommendSizeScale::Default }
}

/// The recommendation for the gathered facts at the given size tiers.
pub fn recommend_with_scales(inputs: RecommendInputs, scales: RecommendScales) -> (r: RecommendedDefaults)
    ensures
        r.pending@ == inputs_pending(inputs, scales),
        items_view(r.items@) == inputs_items(inputs, scales),
        context_ok(r.context, inputs.detection, inputs.status, inputs.overflow),
        size_scales_ok(
            r.size_scales,
            report_profile(inputs.detection, inputs.status),
            inputs.status.memory.mem_total_kb,
            scales,
            r.pending.swapfile is Some,
        ),
{
    let RecommendInputs { detection, status, current_sysctl, current_zram, overflow, facts } = inputs;
    recommend_from_context_scaled(&detection, &status, current_sysctl, current_zram, overflow, scales, facts)
}

/// The recommendation for the gathered facts at the default size tiers.
pub fn recommend(inputs: RecommendInputs) -> (r: RecommendedDefaults)
    ensures
        r.pending@ == inputs_pending(inputs, default_scales()),
        items_view(r.items@) == inputs_items(inputs, default_scales()),
        context_ok(r.context, inputs.detection, inputs.status, inputs.overflow),
        size_scales_ok(
            r.size_scales,
            report_profile(inputs.detection, inputs.status),
            inputs.status.memory.mem_total_kb,
            default_scales(),
            r.pending.swapfile is Some,
        ),
{
    recommend_with_scales(inputs, RecommendScales::default())
}

/// The recommendation at the given tiers, and the pending configuration to
/// store: what it stages merged into the current pending configuration, or
/// `None` when it stages nothing.
pub fn stage_recommended_with_scales(
    inputs: RecommendInputs,
    scales: RecommendScales,
    current: Option<PendingConfig>,
) -> (r: (RecommendedDefaults, Option<PendingConfig>))
    ensures
        r.0.pending@ == inputs_pending(inputs, scales),
        items_view(r.0.items@) == inputs_items(inputs, scales),
        spec_is_empty(inputs_pending(inputs, scales)) ==> r.1 is None,
        !spec_is_empty(inputs_pending(inputs, scales)) ==> r.1 is Some && r.1->0@ == spec_merge(
            match current {
                Some(c) => c@,
                None => empty_pending(),
            },
            inputs_pending(inputs, scales),
        ),
{
    let report = recommend_with_scales(inputs, scales);
    if crate::apply::pending::pending_is_empty(&report.pending) {
        (report, None)
    } else {
        let next = stage(current, &report.pending);
        (report, Some(next))
    }
}

/// [`stage_recommended_with_scales`] at the default size tiers.
pub fn stage_recommended(inputs: RecommendInputs, current: Option<PendingConfig>) -> (r: (
    RecommendedDefaults,
    Option<PendingConfig>,
))
    ensures
        r.0.pending@ == inputs_pending(inputs, default_scales()),
        spec_is_empty(inputs_pending(inputs, default_scales())) ==> r.1 is None,
        !spec_is_empty(inputs_pending(inputs, default_scales())) ==> r.1 is Some && r.1->0@ == spec_merge(
            match current {
                Some(c) => c@,
                None => empty_pending(),
            },
            inputs_pending(inputs, default_scales()),
        ),
{
    stage_recommended_with_scales(inputs, RecommendScales::default(), current)
}

} // verus!
