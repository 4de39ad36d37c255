//! Building the recommendation report from detected facts.
use vstd::prelude::*;

use super::engine_notes::{
    advisory_items, lacks_summary, lemma_advisory_lacks_match, lemma_advisory_shape, lemma_differ_at, lemma_lacks_concat,
    note_item,
    ostr, spec_advisory, spec_note, current_algorithm, note_if,
};
use super::overflow::{decide_overflow_swapfile_scaled, has_active_disk_swap, spec_active_disk_swap, spec_decide, strings_view};
use super::profile::{
    build_recommended_zram_scaled, pick_profile, profile_reference, spec_pick_profile, spec_profile_reference,
    spec_recommended_zram,
};
use super::scales::{build_size_scales, size_scales_ok, RecommendScales, RecommendSizeScale};
use super::staging::{
    ozv, spec_for_staging, spec_sysctl_needs_update, spec_zram_needs_update, sysctl_needs_update, zram_for_staging,
    zram_needs_update,
};
use super::types::{
    items_view, DecisionView, ItemView, OverflowDecision, RecommendProfile, RecommendationItem, RecommendedDefaults,
    SystemContext, OVERFLOW_FREE_SPACE_MARGIN_MB, OVERFLOW_SWAPFILE_MAX_MB, OVERFLOW_SWAPFILE_PATH,
};
use crate::apply::types::{copy_opt_string, copy_string, empty_pending, fv, sv, zv, PendingConfig, PendingView, SwapfileConfigView, ZramConfig, ZramConfigView};
use crate::detect::{spec_package_name, zram_generator_package_name, DetectionReport, ZramBackend};
use crate::num::{int_str, nat_str, push_int, push_nat};
use crate::status::{format_bytes, kib_bytes, kib_to_bytes, spec_format_bytes, StatusReport};
use crate::apply::pending::spec_is_empty;
use crate::sysctl::{spec_zram_tuning_defaults, zram_tuning_defaults, SysctlValues};
use crate::text::{join_with, owned, push_joined, push_str};

verus! {

/// What is known of disk swap configured outside the running system and of
/// the free space near the overflow swapfile.
#[derive(Debug, Clone)]
pub struct OverflowInputs {
    pub configured_disk_swap: bool,
    pub configured_paths: Vec<String>,
    pub available_bytes: Option<u64>,
}

impl Default for OverflowInputs {
    fn default() -> (o: Self)
        ensures
            !o.configured_disk_swap,
            o.configured_paths@.len() == 0,
            o.available_bytes is None,
    {
        OverflowInputs { configured_disk_swap: false, configured_paths: Vec::new(), available_bytes: None }
    }
}

/// Host facts that the recommendation reads besides detection and status.
#[derive(Debug, Clone, Copy)]
pub struct HostFacts {
    /// Whether zswap is enabled; `None` when unknown.
    pub zswap_enabled: Option<bool>,
    /// The hibernation resume device is a zram device.
    pub hibernation_blocks_zram: bool,
    pub cpu_cores: u32,
}

// ---------------------------------------------------------------------------
// The report as text
// ---------------------------------------------------------------------------

pub open spec fn profile_name(p: RecommendProfile) -> Seq<char> {
    match p {
        RecommendProfile::Conservative => "Conservative"@,
        RecommendProfile::Performance => "Performance"@,
        RecommendProfile::Constrained => "Constrained"@,
    }
}

pub open spec fn profile_lower(p: RecommendProfile) -> Seq<char> {
    match p {
        RecommendProfile::Conservative => "conservative"@,
        RecommendProfile::Performance => "performance"@,
        RecommendProfile::Constrained => "constrained"@,
    }
}

pub open spec fn backend_lower(b: ZramBackend) -> Seq<char> {
    match b {
        ZramBackend::SystemdZramGenerator => "systemdzramgenerator"@,
        ZramBackend::ZramTools => "zramtools"@,
        ZramBackend::Manual => "manual"@,
        ZramBackend::Absent => "none"@,
    }
}

pub open spec fn or_text(o: Option<Seq<char>>, d: Seq<char>) -> Seq<char> {
    match o {
        Some(s) => s,
        None => d,
    }
}

/// The staged zram item: profile, algorithm, priority, device, formula,
/// resident limit and the machine's RAM.
pub open spec fn zram_stage_item(profile: RecommendProfile, staged: ZramConfigView, mem_total_kb: u64) -> ItemView {
    ItemView {
        category: "zram"@,
        summary: "Configure ZRAM ("@ + profile_name(profile) + ", "@ + or_text(
            staged.compression_algorithm,
            "zstd"@,
        ) + ", priority "@ + int_str(
            match staged.swap_priority {
                Some(p) => p as int,
                None => 100,
            },
        ) + ")"@,
        detail: "Device "@ + staged.device + " with size formula '"@ + or_text(staged.zram_size, "min(ram / 2, 4096)"@)
            + "'"@ + match staged.zram_resident_limit {
            Some(r) => ", resident-limit "@ + r,
            None => Seq::empty(),
        } + " based on "@ + spec_format_bytes(kib_to_bytes(mem_total_kb)) + " RAM"@,
        will_stage: true,
        reference: Some(spec_profile_reference(profile)),
    }
}

/// The zram part: a note when hibernation blocks zram, the staged device
/// when the current one differs from the recommendation, else a note that it
/// matches; then, for the performance profile, the resident-limit note.
pub open spec fn zram_stage(
    profile: RecommendProfile,
    recommended: ZramConfigView,
    current: Option<ZramConfigView>,
    mem_total_kb: u64,
    no_devices: bool,
    hibernate_blocks: bool,
) -> (Seq<ItemView>, Option<ZramConfigView>) {
    let ram_mb = (mem_total_kb / 1024) as u64;
    let staged = spec_for_staging(current, recommended, ram_mb);
    let first: (Seq<ItemView>, Option<ZramConfigView>) = if hibernate_blocks {
        (
            seq![
                spec_note(
                    "Hibernation conflict: zram staging skipped"@,
                    "Hibernation resume device points to zram. Disk-backed swap is required as the resume device."@,
                    Some("known-conflicts"@),
                ),
            ],
            None,
        )
    } else if spec_zram_needs_update(current, recommended, ram_mb) {
        (seq![zram_stage_item(profile, staged, mem_total_kb)], Some(staged))
    } else if no_devices {
        (
            seq![
                spec_note(
                    "ZRAM configuration already matches recommendations"@,
                    "No zram generator changes needed."@,
                    Some(spec_profile_reference(profile)),
                ),
            ],
            None,
        )
    } else {
        (
            seq![
                spec_note(
                    "Active ZRAM already matches recommended settings"@,
                    "Current generator config aligns with hardware-based defaults (vendor size is kept when already large enough)."@,
                    Some(spec_profile_reference(profile)),
                ),
            ],
            None,
        )
    };
    (
        first.0 + note_if(
            profile == RecommendProfile::Performance,
            spec_note(
                "Performance profile resident-limit"@,
                "zram-resident-limit = ram / 2 caps RAM used for compressed pages when zram-size = ram. See docs/RECOMMENDATIONS.md#resident-limit."@,
                Some("resident-limit"@),
            ),
        ),
        first.1,
    )
}

/// The sysctl part: the tuning defaults, staged when the live values are
/// unknown or differ.
pub open spec fn sysctl_stage(current: Option<SysctlValues>) -> (Seq<ItemView>, Option<SysctlValues>) {
    if spec_sysctl_needs_update(current, spec_zram_tuning_defaults()) {
        (
            seq![
                ItemView {
                    category: "sysctl"@,
                    summary: "Apply zram sysctl tuning defaults"@,
                    detail: "vm.swappiness=180, vm.watermark_boost_factor=0, vm.watermark_scale_factor=125, vm.page-cluster=0"@,
                    will_stage: true,
                    reference: Some("sysctl-tuning"@),
                },
            ],
            Some(spec_zram_tuning_defaults()),
        )
    } else {
        (
            seq![
                spec_note(
                    "Sysctl values already match zram tuning defaults"@,
                    "No vm.* changes needed."@,
                    Some("sysctl-tuning"@),
                ),
            ],
            None,
        )
    }
}

/// The overflow part, from the overflow decision.
pub open spec fn overflow_stage(d: DecisionView) -> (Seq<ItemView>, Option<SwapfileConfigView>) {
    match d {
        DecisionView::Stage(c) => (
            seq![
                ItemView {
                    category: "swapfile"@,
                    summary: "Create overflow swap file ("@ + nat_str(c.size_mb as nat) + " MiB, priority "@ + int_str(
                        c.priority as int,
                    ) + ")"@,
                    detail: "Disk-backed safety net at "@ + c.path + " (capped at "@ + nat_str(
                        OVERFLOW_SWAPFILE_MAX_MB as nat,
                    ) + " MiB). Btrfs nodatacow is prepared automatically on apply."@,
                    will_stage: true,
                    reference: Some("overflow-swapfile"@),
                },
                spec_note(
                    "Dual-tier swap tradeoff"@,
                    "Advisory only — Apply defaults stages overflow as a safety net. If swap regularly exceeds ~30% of RAM, zswap may fit better — see docs/RECOMMENDATIONS.md#dual-tier-tradeoff."@,
                    Some("dual-tier-tradeoff"@),
                ),
            ],
            Some(c),
        ),
        DecisionView::SkipConfiguredDiskSwap(paths) => (
            seq![
                spec_note(
                    "Configured disk swap already present"@,
                    "Overflow swapfile not staged because fstab (or managed inventory) already lists non-zram swap: "@
                        + join_with(paths, ", "@) + ". Enable it with swapon or remove stale entries before adding "@
                        + OVERFLOW_SWAPFILE_PATH@ + "."@,
                    Some("overflow-swapfile"@),
                ),
            ],
            None,
        ),
        DecisionView::SkipInsufficientSpace(required, available) => (
            seq![
                spec_note(
                    "Insufficient free disk space for overflow swapfile"@,
                    "Need about "@ + nat_str(required as nat) + " MiB free near "@ + OVERFLOW_SWAPFILE_PATH@
                        + " (including "@ + nat_str(OVERFLOW_FREE_SPACE_MARGIN_MB as nat)
                        + " MiB margin); about "@ + nat_str(available as nat)
                        + " MiB available. Free space or choose a smaller swapfile manually."@,
                    Some("overflow-swapfile"@),
                ),
            ],
            None,
        ),
        _ => (Seq::empty(), None),
    }
}

/// Staging is impossible on a read-only `/etc` or an immutable system.
pub open spec fn staging_blocked(d: DetectionReport) -> bool {
    !d.etc_writable || d.immutable_os
}

/// The notes that open the report: read-only `/etc`, immutable system,
/// legacy zram-tools backend, and no backend at all.
pub open spec fn preface_notes(d: DetectionReport, no_devices: bool) -> Seq<ItemView> {
    note_if(
        !d.etc_writable,
        spec_note(
            "Read-only /etc: cannot stage configuration"@,
            "XZram cannot stage zram, sysctl, or swapfile changes on a read-only /etc. Use distro layering or a writable /etc overlay."@,
            Some("doctor-mapping"@),
        ),
    ) + note_if(
        d.immutable_os,
        spec_note(
            "Immutable OS: cannot stage configuration"@,
            "This system looks immutable (NixOS, ostree, Silverblue, or similar). Configure swap via distro layering or the Doctor tab — Apply recommended defaults will not stage changes."@,
            Some("doctor-mapping"@),
        ),
    ) + note_if(
        d.zram_backend == ZramBackend::ZramTools,
        spec_note(
            "Legacy zram-tools configuration detected"@,
            "Advisory only — Apply defaults does not migrate backends. Run 'xzram zram migrate' first if you are switching to systemd-zram-generator."@,
            Some("doctor-mapping"@),
        ),
    ) + note_if(
        d.zram_backend == ZramBackend::Absent && no_devices,
        spec_note(
            "No zram backend detected"@,
            "Install "@ + spec_package_name(d.package_manager)
                + " and apply defaults to create a zram swap device. Apply defaults does not install packages."@,
            Some("doctor-mapping"@),
        ),
    )
}

/// The profile chosen for this machine.
pub open spec fn report_profile(d: DetectionReport, s: StatusReport) -> RecommendProfile {
    spec_pick_profile(d.distro.id@, s.memory.mem_total_kb)
}

/// The overflow decision for this machine.
pub open spec fn report_decision(s: StatusReport, o: OverflowInputs, scales: RecommendScales) -> DecisionView {
    spec_decide(
        s.swaps@,
        s.memory.mem_total_kb,
        o.configured_disk_swap,
        strings_view(o.configured_paths@),
        o.available_bytes,
        scales.swapfile,
    )
}

/// The zram, sysctl and overflow parts for this machine.
pub open spec fn report_stages(
    d: DetectionReport,
    s: StatusReport,
    current_sysctl: Option<SysctlValues>,
    current_zram: Option<ZramConfigView>,
    o: OverflowInputs,
    scales: RecommendScales,
    facts: HostFacts,
) -> (
    (Seq<ItemView>, Option<ZramConfigView>),
    (Seq<ItemView>, Option<SysctlValues>),
    (Seq<ItemView>, Option<SwapfileConfigView>),
) {
    let profile = report_profile(d, s);
    let recommended = spec_recommended_zram(
        profile,
        d.distro.family,
        d.distro.id@,
        s.memory.mem_total_kb,
        facts.cpu_cores,
        scales.zram,
    );
    (
        zram_stage(
            profile,
            recommended,
            current_zram,
            s.memory.mem_total_kb,
            s.zram_devices@.len() == 0,
            facts.hibernation_blocks_zram,
        ),
        sysctl_stage(current_sysctl),
        overflow_stage(report_decision(s, o, scales)),
    )
}

/// What the report stages: nothing when staging is blocked, else the zram
/// device, the sysctl values and the overflow swapfile of the three parts.
pub open spec fn report_pending(
    d: DetectionReport,
    s: StatusReport,
    current_sysctl: Option<SysctlValues>,
    current_zram: Option<ZramConfigView>,
    o: OverflowInputs,
    scales: RecommendScales,
    facts: HostFacts,
) -> PendingView {
    if staging_blocked(d) {
        empty_pending()
    } else {
        let st = report_stages(d, s, current_sysctl, current_zram, o, scales, facts);
        PendingView { zram: st.0.1, sysctl: st.1.1, swapfile: st.2.1, ..empty_pending() }
    }
}

pub open spec fn any_will_stage(items: Seq<ItemView>) -> bool {
    exists|i: int| 0 <= i < items.len() && (#[trigger] items[i]).will_stage
}

/// The report's items before the closing check: preface notes, the three
/// parts (unless staging is blocked) and the advisory notes.
pub open spec fn report_body(
    d: DetectionReport,
    s: StatusReport,
    current_sysctl: Option<SysctlValues>,
    current_zram: Option<ZramConfigView>,
    o: OverflowInputs,
    scales: RecommendScales,
    facts: HostFacts,
) -> Seq<ItemView> {
    let st = report_stages(d, s, current_sysctl, current_zram, o, scales, facts);
    let staged = if staging_blocked(d) {
        Seq::empty()
    } else {
        st.0.0 + st.1.0 + st.2.0
    };
    preface_notes(d, s.zram_devices@.len() == 0) + staged + spec_advisory(
        sv(d.root_filesystem),
        s.zram_devices@,
        s.swaps@,
        match current_zram {
            Some(z) => z.compression_algorithm,
            None => None,
        },
        report_pending(d, s, current_sysctl, current_zram, o, scales, facts).swapfile is Some,
        facts.zswap_enabled,
    )
}

/// The report's items: the body, opened by a note that the system already
/// matches when staging is possible and no item stages anything.
pub open spec fn report_items(
    d: DetectionReport,
    s: StatusReport,
    current_sysctl: Option<SysctlValues>,
    current_zram: Option<ZramConfigView>,
    o: OverflowInputs,
    scales: RecommendScales,
    facts: HostFacts,
) -> Seq<ItemView> {
    let body = report_body(d, s, current_sysctl, current_zram, o, scales, facts);
    if !staging_blocked(d) && !any_will_stage(body) {
        seq![
            spec_note(
                "System already matches recommended defaults"@,
                "No configuration changes will be staged."@,
                None,
            ),
        ] + body
    } else {
        body
    }
}

/// The machine summary of the report.
pub open spec fn context_ok(
    c: SystemContext,
    d: DetectionReport,
    s: StatusReport,
    o: OverflowInputs,
) -> bool {
    &&& c.mem_total_bytes == kib_to_bytes(s.memory.mem_total_kb)
    &&& c.mem_available_bytes == kib_to_bytes(s.memory.mem_available_kb)
    &&& c.has_active_zram == (s.zram_devices@.len() > 0)
    &&& c.has_disk_swap == (spec_active_disk_swap(s.swaps@) || o.configured_disk_swap)
    &&& c.distro@ == or_text(sv(d.distro.pretty_name), d.distro.id@)
    &&& sv(c.root_filesystem) == sv(d.root_filesystem)
    &&& c.zram_backend@ == backend_lower(d.zram_backend)
    &&& c.profile@ == profile_lower(report_profile(d, s))
    &&& c.immutable_os == d.immutable_os
    &&& c.etc_writable == d.etc_writable
}

// ---------------------------------------------------------------------------
// Building it
// ---------------------------------------------------------------------------

fn push_item(items: &mut Vec<RecommendationItem>, i: RecommendationItem)
    ensures
        items_view(final(items)@) == items_view(old(items)@).push(i@),
{
    items.push(i);
    assert(items_view(items@) =~= items_view(old(items)@).push(i@));
}

fn append_items(items: &mut Vec<RecommendationItem>, more: Vec<RecommendationItem>)
    ensures
        items_view(final(items)@) == items_view(old(items)@) + items_view(more@),
{
    let mut more = more;
    let ghost m = more@;
    items.append(&mut more);
    assert(items_view(items@) =~= items_view(old(items)@) + items_view(m));
}

fn append_preface(items: &mut Vec<RecommendationItem>, detection: &DetectionReport, status: &StatusReport)
    ensures
        items_view(final(items)@) == items_view(old(items)@) + preface_notes(*detection, status.zram_devices@.len() == 0),
{
    let ghost start = items_view(items@);
    if !detection.etc_writable {
        push_item(
            items,
            note_item(
                "Read-only /etc: cannot stage configuration",
                owned("XZram cannot stage zram, sysctl, or swapfile changes on a read-only /etc. Use distro layering or a writable /etc overlay."),
                Some("doctor-mapping"),
            ),
        );
    }
    let ghost s1 = items_view(items@);
    if detection.immutable_os {
        push_item(
            items,
            note_item(
                "Immutable OS: cannot stage configuration",
                owned("This system looks immutable (NixOS, ostree, Silverblue, or similar). Configure swap via distro layering or the Doctor tab — Apply recommended defaults will not stage changes."),
                Some("doctor-mapping"),
            ),
        );
    }
    let ghost s2 = items_view(items@);
    if detection.zram_backend == ZramBackend::ZramTools {
        push_item(
            items,
            note_item(
                "Legacy zram-tools configuration detected",
                owned("Advisory only — Apply defaults does not migrate backends. Run 'xzram zram migrate' first if you are switching to systemd-zram-generator."),
                Some("doctor-mapping"),
            ),
        );
    }
    let ghost s3 = items_view(items@);
    if detection.zram_backend == ZramBackend::Absent && status.zram_devices.len() == 0 {
        let pkg = zram_generator_package_name(detection.package_manager);
        let mut d = owned("Install ");
        push_str(&mut d, pkg);
        push_str(&mut d, " and apply defaults to create a zram swap device. Apply defaults does not install packages.");
        push_item(items, note_item("No zram backend detected", d, Some("doctor-mapping")));
    }
    assert(items_view(items@) =~= start + preface_notes(*detection, status.zram_devices@.len() == 0));
}

fn zram_item(profile: RecommendProfile, staged: &ZramConfig, mem_total_kb: u64) -> (i: RecommendationItem)
    ensures
        i@ == zram_stage_item(profile, staged@, mem_total_kb),
{
    let mut summary = owned("Configure ZRAM (");
    push_str(
        &mut summary,
        match profile {
            RecommendProfile::Conservative => "Conservative",
            RecommendProfile::Performance => "Performance",
            RecommendProfile::Constrained => "Constrained",
        },
    );
    push_str(&mut summary, ", ");
    match &staged.compression_algorithm {
        Some(a) => push_str(&mut summary, a.as_str()),
        None => push_str(&mut summary, "zstd"),
    }
    push_str(&mut summary, ", priority ");
    let pri: i32 = match staged.swap_priority {
        Some(p) => p,
        None => 100,
    };
    push_int(&mut summary, pri as i64);
    push_str(&mut summary, ")");
    let mut detail = owned("Device ");
    push_str(&mut detail, staged.device.as_str());
    push_str(&mut detail, " with size formula '");
    match &staged.zram_size {
        Some(s) => push_str(&mut detail, s.as_str()),
        None => push_str(&mut detail, "min(ram / 2, 4096)"),
    }
    push_str(&mut detail, "'");
    match &staged.zram_resident_limit {
        Some(r) => {
            push_str(&mut detail, ", resident-limit ");
            push_str(&mut detail, r.as_str());
        },
        None => {},
    }
    push_str(&mut detail, " based on ");
    let ram = format_bytes(kib_bytes(mem_total_kb));
    push_str(&mut detail, ram.as_str());
    push_str(&mut detail, " RAM");
    let reference = profile_reference(profile);
    let i = RecommendationItem {
        category: owned("zram"),
        summary,
        detail,
        will_stage: true,
        reference: match reference {
            Some(r) => Some(owned(r)),
            None => None,
        },
    };
    assert(i@.summary =~= zram_stage_item(profile, staged@, mem_total_kb).summary);
    assert(i@.detail =~= zram_stage_item(profile, staged@, mem_total_kb).detail);
    i
}

fn stage_zram(
    items: &mut Vec<RecommendationItem>,
    profile: RecommendProfile,
    detection: &DetectionReport,
    status: &StatusReport,
    current_zram: Option<&ZramConfig>,
    facts: HostFacts,
    scales: RecommendScales,
) -> (z: Option<ZramConfig>)
    ensures
        ({
            let st = zram_stage(
                profile,
                spec_recommended_zram(
                    profile,
                    detection.distro.family,
                    detection.distro.id@,
                    status.memory.mem_total_kb,
                    facts.cpu_cores,
                    scales.zram,
                ),
                ozv(current_zram),
                status.memory.mem_total_kb,
                status.zram_devices@.len() == 0,
                facts.hibernation_blocks_zram,
            );
            &&& items_view(final(items)@) == items_view(old(items)@) + st.0
            &&& zv(z) == st.1
        }),
        ({
            let rec = spec_recommended_zram(
                profile,
                detection.distro.family,
                detection.distro.id@,
                status.memory.mem_total_kb,
                facts.cpu_cores,
                scales.zram,
            );
            let ram_mb = (status.memory.mem_total_kb / 1024) as u64;
            let cur = ozv(current_zram);
            let before = items_view(old(items)@);
            let after = items_view(final(items)@);
            let n = before.len() as int;
            &&& after.subrange(0, n) == before
            &&& after.len() == n + (if profile == RecommendProfile::Performance { 2int } else { 1int })
            &&& facts.hibernation_blocks_zram ==> z is None && after[n].category == "note"@ && !after[n].will_stage
            &&& (!facts.hibernation_blocks_zram && spec_zram_needs_update(cur, rec, ram_mb)) ==> zv(z) == Some(
                spec_for_staging(cur, rec, ram_mb),
            ) && after[n].category == "zram"@ && after[n].will_stage
            &&& (!facts.hibernation_blocks_zram && !spec_zram_needs_update(cur, rec, ram_mb)) ==> z is None
                && after[n].category == "note"@ && !after[n].will_stage
            &&& profile == RecommendProfile::Performance ==> after[n + 1].summary
                == "Performance profile resident-limit"@ && !after[n + 1].will_stage
        }),
{
    proof {
        lemma_zram_stage_shape(
            profile,
            spec_recommended_zram(
                profile,
                detection.distro.family,
                detection.distro.id@,
                status.memory.mem_total_kb,
                facts.cpu_cores,
                scales.zram,
            ),
            ozv(current_zram),
            status.memory.mem_total_kb,
            status.zram_devices@.len() == 0,
            facts.hibernation_blocks_zram,
        );
    }
    let ghost start = items_view(items@);
    let recommended = build_recommended_zram_scaled(profile, detection, status, facts.cpu_cores, scales.zram);
    let ram_mb = status.memory.mem_total_kb / 1024;
    let mut staged: Option<ZramConfig> = None;
    if facts.hibernation_blocks_zram {
        push_item(
            items,
            note_item(
                "Hibernation conflict: zram staging skipped",
                owned("Hibernation resume device points to zram. Disk-backed swap is required as the resume device."),
                Some("known-conflicts"),
            ),
        );
    } else if zram_needs_update(current_zram, &recommended, ram_mb) {
        let s = zram_for_staging(current_zram, &recommended, ram_mb);
        push_item(items, zram_item(profile, &s, status.memory.mem_total_kb));
        staged = Some(s);
    } else if status.zram_devices.len() == 0 {
        push_item(
            items,
            note_item(
                "ZRAM configuration already matches recommendations",
                owned("No zram generator changes needed."),
                profile_reference(profile),
            ),
        );
    } else {
        push_item(
            items,
            note_item(
                "Active ZRAM already matches recommended settings",
                owned("Current generator config aligns with hardware-based defaults (vendor size is kept when already large enough)."),
                profile_reference(profile),
            ),
        );
    }
    let ghost mid = items_view(items@);
    if profile == RecommendProfile::Performance {
        push_item(
            items,
            note_item(
                "Performance profile resident-limit",
                owned("zram-resident-limit = ram / 2 caps RAM used for compressed pages when zram-size = ram. See docs/RECOMMENDATIONS.md#resident-limit."),
                Some("resident-limit"),
            ),
        );
    }
    let ghost st = zram_stage(
        profile,
        recommended@,
        ozv(current_zram),
        status.memory.mem_total_kb,
        status.zram_devices@.len() == 0,
        facts.hibernation_blocks_zram,
    );
    assert(mid =~= start + st.0.subrange(0, 1));
    assert(items_view(items@) =~= start + st.0);
    staged
}

fn stage_sysctl(items: &mut Vec<RecommendationItem>, current_sysctl: Option<SysctlValues>) -> (v: Option<SysctlValues>)
    ensures
        items_view(final(items)@) == items_view(old(items)@) + sysctl_stage(current_sysctl).0,
        v == sysctl_stage(current_sysctl).1,
{
    let recommended = zram_tuning_defaults();
    let cur: Option<&SysctlValues> = match &current_sysctl {
        Some(c) => Some(c),
        None => None,
    };
    if sysctl_needs_update(cur, &recommended) {
        push_item(
            items,
            RecommendationItem {
                category: owned("sysctl"),
                summary: owned("Apply zram sysctl tuning defaults"),
                detail: owned("vm.swappiness=180, vm.watermark_boost_factor=0, vm.watermark_scale_factor=125, vm.page-cluster=0"),
                will_stage: true,
                reference: Some(owned("sysctl-tuning")),
            },
        );
        Some(recommended)
    } else {
        push_item(
            items,
            note_item(
                "Sysctl values already match zram tuning defaults",
                owned("No vm.* changes needed."),
                Some("sysctl-tuning"),
            ),
        );
        None
    }
}

fn stage_overflow(
    items: &mut Vec<RecommendationItem>,
    status: &StatusReport,
    overflow: &OverflowInputs,
    scales: RecommendScales,
) -> (f: Option<crate::apply::types::SwapfileConfig>)
    ensures
        items_view(final(items)@) == items_view(old(items)@) + overflow_stage(report_decision(*status, *overflow, scales)).0,
        fv(f) == overflow_stage(report_decision(*status, *overflow, scales)).1,
        ({
            let d = report_decision(*status, *overflow, scales);
            let before = items_view(old(items)@);
            let after = items_view(final(items)@);
            let n = before.len() as int;
            &&& after.subrange(0, n) == before
            &&& d matches DecisionView::Stage(c) ==> fv(f) == Some(c) && after.len() == n + 2 && after[n].category
                == "swapfile"@ && after[n].will_stage && after[n + 1].summary == "Dual-tier swap tradeoff"@
                && after[n + 1].category == "note"@ && !after[n + 1].will_stage
            &&& (d is SkipConfiguredDiskSwap || d is SkipInsufficientSpace) ==> f is None && after.len() == n + 1
                && after[n].category == "note"@ && !after[n].will_stage
            &&& (d is SkipActiveDiskSwap || d is SkipZeroSize) ==> f is None && after == before
        }),
{
    proof {
        lemma_overflow_stage_shape(report_decision(*status, *overflow, scales));
    }
    let ghost start = items_view(items@);
    let decision = decide_overflow_swapfile_scaled(
        status,
        overflow.configured_disk_swap,
        overflow.configured_paths.as_slice(),
        overflow.available_bytes,
        scales.swapfile,
    );
    match decision {
        OverflowDecision::Stage(swapfile) => {
            let mut summary = owned("Create overflow swap file (");
            push_nat(&mut summary, swapfile.size_mb);
            push_str(&mut summary, " MiB, priority ");
            push_int(&mut summary, swapfile.priority as i64);
            push_str(&mut summary, ")");
            let mut detail = owned("Disk-backed safety net at ");
            push_str(&mut detail, swapfile.path.as_str());
            push_str(&mut detail, " (capped at ");
            push_nat(&mut detail, OVERFLOW_SWAPFILE_MAX_MB);
            push_str(&mut detail, " MiB). Btrfs nodatacow is prepared automatically on apply.");
            push_item(
                items,
                RecommendationItem {
                    category: owned("swapfile"),
                    summary,
                    detail,
                    will_stage: true,
                    reference: Some(owned("overflow-swapfile")),
                },
            );
            push_item(
                items,
                note_item(
                    "Dual-tier swap tradeoff",
                    owned("Advisory only — Apply defaults stages overflow as a safety net. If swap regularly exceeds ~30% of RAM, zswap may fit better — see docs/RECOMMENDATIONS.md#dual-tier-tradeoff."),
                    Some("dual-tier-tradeoff"),
                ),
            );
            assert(items_view(items@) =~= start + overflow_stage(report_decision(*status, *overflow, scales)).0);
            Some(swapfile)
        },
        OverflowDecision::SkipConfiguredDiskSwap { paths } => {
            let mut detail = owned(
                "Overflow swapfile not staged because fstab (or managed inventory) already lists non-zram swap: ",
            );
            push_joined(&mut detail, paths.as_slice(), ", ");
            push_str(&mut detail, ". Enable it with swapon or remove stale entries before adding ");
            push_str(&mut detail, OVERFLOW_SWAPFILE_PATH);
            push_str(&mut detail, ".");
            push_item(items, note_item("Configured disk swap already present", detail, Some("overflow-swapfile")));
            assert(items_view(items@) =~= start + overflow_stage(report_decision(*status, *overflow, scales)).0);
            None
        },
        OverflowDecision::SkipInsufficientSpace { required_mb, available_mb } => {
            let mut detail = owned("Need about ");
            push_nat(&mut detail, required_mb);
            push_str(&mut detail, " MiB free near ");
            push_str(&mut detail, OVERFLOW_SWAPFILE_PATH);
            push_str(&mut detail, " (including ");
            push_nat(&mut detail, OVERFLOW_FREE_SPACE_MARGIN_MB);
            push_str(&mut detail, " MiB margin); about ");
            push_nat(&mut detail, available_mb);
            push_str(&mut detail, " MiB available. Free space or choose a smaller swapfile manually.");
            push_item(
                items,
                note_item("Insufficient free disk space for overflow swapfile", detail, Some("overflow-swapfile")),
            );
            assert(items_view(items@) =~= start + overflow_stage(report_decision(*status, *overflow, scales)).0);
            None
        },
        _ => {
            assert(items_view(items@) =~= start + overflow_stage(report_decision(*status, *overflow, scales)).0);
            None
        },
    }
}

fn zram_ref(o: &Option<ZramConfig>) -> (r: Option<&ZramConfig>)
    ensures
        ozv(r) == zv(*o),
{
    match o {
        Some(z) => Some(z),
        None => None,
    }
}

fn find_will_stage(items: &Vec<RecommendationItem>) -> (r: bool)
    ensures
        r == any_will_stage(items_view(items@)),
{
    let ghost v = items_view(items@);
    let mut i: usize = 0;
    while i < items.len()
        invariant
            i <= items.len(),
            v == items_view(items@),
            forall|j: int| 0 <= j < i ==> !(#[trigger] v[j]).will_stage,
        decreases items.len() - i,
    {
        if items[i].will_stage {
            assert(v[i as int].will_stage);
            return true;
        }
        i = i + 1;
    }
    false
}

fn build_context(
    detection: &DetectionReport,
    status: &StatusReport,
    overflow: &OverflowInputs,
    profile: RecommendProfile,
) -> (c: SystemContext)
    requires
        profile == report_profile(*detection, *status),
    ensures
        context_ok(c, *detection, *status, *overflow),
{
    let active_disk = has_active_disk_swap(status);
    let distro = match &detection.distro.pretty_name {
        Some(p) => copy_string(p),
        None => copy_string(&detection.distro.id),
    };
    SystemContext {
        mem_total_bytes: kib_bytes(status.memory.mem_total_kb),
        mem_available_bytes: kib_bytes(status.memory.mem_available_kb),
        has_active_zram: status.zram_devices.len() > 0,
        has_disk_swap: active_disk || overflow.configured_disk_swap,
        distro,
        root_filesystem: copy_opt_string(&detection.root_filesystem),
        zram_backend: owned(
            match detection.zram_backend {
                ZramBackend::SystemdZramGenerator => "systemdzramgenerator",
                ZramBackend::ZramTools => "zramtools",
                ZramBackend::Manual => "manual",
                ZramBackend::Absent => "none",
            },
        ),
        profile: owned(
            match profile {
                RecommendProfile::Conservative => "conservative",
                RecommendProfile::Performance => "performance",
                RecommendProfile::Constrained => "constrained",
            },
        ),
        immutable_os: detection.immutable_os,
        etc_writable: detection.etc_writable,
    }
}

/// The recommendation report for given facts and size tiers: the staged
/// configuration, the items that explain it, the machine summary and the
/// size tiers offered.
pub fn recommend_from_context_scaled(
    detection: &DetectionReport,
    status: &StatusReport,
    current_sysctl: Option<SysctlValues>,
    current_zram: Option<ZramConfig>,
    overflow: OverflowInputs,
    scales: RecommendScales,
    facts: HostFacts,
) -> (r: RecommendedDefaults)
    ensures
        r.pending@ == report_pending(*detection, *status, current_sysctl, zv(current_zram), overflow, scales, facts),
        items_view(r.items@) == report_items(*detection, *status, current_sysctl, zv(current_zram), overflow, scales, facts),
        context_ok(r.context, *detection, *status, overflow),
        size_scales_ok(
            r.size_scales,
            report_profile(*detection, *status),
            status.memory.mem_total_kb,
            scales,
            r.pending.swapfile is Some,
        ),
{
    let ghost cz = zv(current_zram);
    let profile = pick_profile(detection, status);
    let mut items: Vec<RecommendationItem> = Vec::new();
    let mut pending = PendingConfig::default();
    let blocked = !detection.etc_writable || detection.immutable_os;
    assert(items_view(items@) =~= Seq::<ItemView>::empty());
    append_preface(&mut items, detection, status);
    let ghost after_preface = items_view(items@);
    let zref = zram_ref(&current_zram);
    if !blocked {
        let z = stage_zram(&mut items, profile, detection, status, zref, facts, scales);
        let v = stage_sysctl(&mut items, current_sysctl);
        let f = stage_overflow(&mut items, status, &overflow, scales);
        pending.zram = z;
        pending.sysctl = v;
        pending.swapfile = f;
    }
    let ghost after_stages = items_view(items@);
    assert(pending@ == report_pending(*detection, *status, current_sysctl, cz, overflow, scales, facts));
    let staging_overflow = pending.swapfile.is_some();
    let notes = advisory_items(detection, status, zref, staging_overflow, facts.zswap_enabled);
    append_items(&mut items, notes);
    assert(items_view(items@) =~= report_body(*detection, *status, current_sysctl, cz, overflow, scales, facts));
    if !blocked && !find_will_stage(&items) {
        let ghost body = items_view(items@);
        let first = note_item(
            "System already matches recommended defaults",
            owned("No configuration changes will be staged."),
            None,
        );
        items.insert(0, first);
        assert(items_view(items@) =~= seq![first@] + body);
    }
    let context = build_context(detection, status, &overflow, profile);
    let size_scales = build_size_scales(profile, status.memory.mem_total_kb, scales, staging_overflow);
    RecommendedDefaults { pending, items, context, size_scales }
}

/// The recommendation report at the default size tiers.
pub fn recommend_from_context(
    detection: &DetectionReport,
    status: &StatusReport,
    current_sysctl: Option<SysctlValues>,
    current_zram: Option<ZramConfig>,
    overflow: OverflowInputs,
    facts: HostFacts,
) -> (r: RecommendedDefaults)
    ensures
        r.pending@ == report_pending(
            *detection,
            *status,
            current_sysctl,
            zv(current_zram),
            overflow,
            (RecommendScales { zram: super::scales::RecommendSizeScale::Default, swapfile: super::scales::RecommendSizeScale::Default }),
            facts,
        ),
        items_view(r.items@) == report_items(
            *detection,
            *status,
            current_sysctl,
            zv(current_zram),
            overflow,
            (RecommendScales { zram: super::scales::RecommendSizeScale::Default, swapfile: super::scales::RecommendSizeScale::Default }),
            facts,
        ),
        context_ok(r.context, *detection, *status, overflow),
{
    recommend_from_context_scaled(
        detection,
        status,
        current_sysctl,
        current_zram,
        overflow,
        RecommendScales::default(),
        facts,
    )
}

// ---------------------------------------------------------------------------
// Laws of the report
// ---------------------------------------------------------------------------

proof fn lemma_any_concat(a: Seq<ItemView>, b: Seq<ItemView>)
    ensures
        any_will_stage(a + b) == (any_will_stage(a) || any_will_stage(b)),
{
    let c = a + b;
    if any_will_stage(c) {
        let i = choose|i: int| 0 <= i < c.len() && (#[trigger] c[i]).will_stage;
        if i < a.len() {
            assert(a[i].will_stage);
        } else {
            assert(b[i - a.len()].will_stage);
        }
    }
    if any_will_stage(a) {
        let i = choose|i: int| 0 <= i < a.len() && (#[trigger] a[i]).will_stage;
        assert(c[i].will_stage);
    }
    if any_will_stage(b) {
        let i = choose|i: int| 0 <= i < b.len() && (#[trigger] b[i]).will_stage;
        assert(c[a.len() + i].will_stage);
    }
}

proof fn lemma_single(n: ItemView)
    ensures
        any_will_stage(seq![n]) == n.will_stage,
{
    if n.will_stage {
        assert(seq![n][0].will_stage);
    }
}

proof fn lemma_advisory_stages_nothing(
    root_fs: Option<Seq<char>>,
    zram_devices: Seq<crate::status::ZramDevice>,
    swaps: Seq<crate::status::SwapEntry>,
    alg: Option<Seq<char>>,
    staging_overflow: bool,
    zswap: Option<bool>,
)
    ensures
        !any_will_stage(spec_advisory(root_fs, zram_devices, swaps, alg, staging_overflow, zswap)),
{
    let h = super::engine_notes::head_notes(root_fs, zram_devices, staging_overflow, zswap);
    let a = super::engine_notes::algorithm_item(alg, zram_devices);
    let t = super::engine_notes::tail_notes(zram_devices, swaps);
    assert(!any_will_stage(h));
    assert(!any_will_stage(a));
    assert(!any_will_stage(t));
    lemma_any_concat(h, a);
    lemma_any_concat(h + a, t);
}

proof fn lemma_preface_stages_nothing(d: DetectionReport, no_devices: bool)
    ensures
        !any_will_stage(preface_notes(d, no_devices)),
{
}

proof fn lemma_stages_match_pending(
    d: DetectionReport,
    s: StatusReport,
    current_sysctl: Option<SysctlValues>,
    current_zram: Option<ZramConfigView>,
    o: OverflowInputs,
    scales: RecommendScales,
    facts: HostFacts,
)
    ensures
        ({
            let st = report_stages(d, s, current_sysctl, current_zram, o, scales, facts);
            &&& any_will_stage(st.0.0) == (st.0.1 is Some)
            &&& any_will_stage(st.1.0) == (st.1.1 is Some)
            &&& any_will_stage(st.2.0) == (st.2.1 is Some)
        }),
{
    let st = report_stages(d, s, current_sysctl, current_zram, o, scales, facts);
    let profile = report_profile(d, s);
    let z = st.0;
    let extra = note_if(
        profile == RecommendProfile::Performance,
        spec_note(
            "Performance profile resident-limit"@,
            "zram-resident-limit = ram / 2 caps RAM used for compressed pages when zram-size = ram. See docs/RECOMMENDATIONS.md#resident-limit."@,
            Some("resident-limit"@),
        ),
    );
    assert(z.0 == z.0.subrange(0, 1) + extra);
    lemma_single(z.0[0]);
    assert(z.0.subrange(0, 1) =~= seq![z.0[0]]);
    lemma_any_concat(z.0.subrange(0, 1), extra);
    lemma_single(st.1.0[0]);
    assert(st.1.0 =~= seq![st.1.0[0]]);
    match report_decision(s, o, scales) {
        DecisionView::Stage(c) => {
            assert(st.2.0[0].will_stage);
        },
        DecisionView::SkipConfiguredDiskSwap(_) => {
            lemma_single(st.2.0[0]);
            assert(st.2.0 =~= seq![st.2.0[0]]);
        },
        DecisionView::SkipInsufficientSpace(_, _) => {
            lemma_single(st.2.0[0]);
            assert(st.2.0 =~= seq![st.2.0[0]]);
        },
        _ => {},
    }
}

/// Where `/etc` is read-only or the system is immutable, the report stages
/// nothing and no item claims to stage anything.
pub proof fn lemma_blocked_stages_nothing(
    d: DetectionReport,
    s: StatusReport,
    current_sysctl: Option<SysctlValues>,
    current_zram: Option<ZramConfigView>,
    o: OverflowInputs,
    scales: RecommendScales,
    facts: HostFacts,
)
    requires
        staging_blocked(d),
    ensures
        report_pending(d, s, current_sysctl, current_zram, o, scales, facts) == empty_pending(),
        !any_will_stage(report_items(d, s, current_sysctl, current_zram, o, scales, facts)),
{
    let pre = preface_notes(d, s.zram_devices@.len() == 0);
    let adv = spec_advisory(
        sv(d.root_filesystem),
        s.zram_devices@,
        s.swaps@,
        match current_zram {
            Some(z) => z.compression_algorithm,
            None => None,
        },
        report_pending(d, s, current_sysctl, current_zram, o, scales, facts).swapfile is Some,
        facts.zswap_enabled,
    );
    lemma_preface_stages_nothing(d, s.zram_devices@.len() == 0);
    lemma_advisory_stages_nothing(
        sv(d.root_filesystem),
        s.zram_devices@,
        s.swaps@,
        match current_zram {
            Some(z) => z.compression_algorithm,
            None => None,
        },
        report_pending(d, s, current_sysctl, current_zram, o, scales, facts).swapfile is Some,
        facts.zswap_enabled,
    );
    lemma_any_concat(pre, Seq::empty());
    lemma_any_concat(pre + Seq::empty(), adv);
}

/// Where staging is possible, some item claims to stage exactly when the
/// report stages a zram device, sysctl values or a swapfile; otherwise the
/// report opens with the note that the system already matches.
pub proof fn lemma_staging_items_match_pending(
    d: DetectionReport,
    s: StatusReport,
    current_sysctl: Option<SysctlValues>,
    current_zram: Option<ZramConfigView>,
    o: OverflowInputs,
    scales: RecommendScales,
    facts: HostFacts,
)
    requires
        !staging_blocked(d),
    ensures
        ({
            let p = report_pending(d, s, current_sysctl, current_zram, o, scales, facts);
            let body = report_body(d, s, current_sysctl, current_zram, o, scales, facts);
            let items = report_items(d, s, current_sysctl, current_zram, o, scales, facts);
            &&& any_will_stage(body) == (p.zram is Some || p.sysctl is Some || p.swapfile is Some)
            &&& (items[0].summary == "System already matches recommended defaults"@) <== !(p.zram is Some
                || p.sysctl is Some || p.swapfile is Some)
            &&& (p.zram is Some || p.sysctl is Some || p.swapfile is Some) ==> items == body
        }),
{
    let st = report_stages(d, s, current_sysctl, current_zram, o, scales, facts);
    let pre = preface_notes(d, s.zram_devices@.len() == 0);
    let adv = spec_advisory(
        sv(d.root_filesystem),
        s.zram_devices@,
        s.swaps@,
        match current_zram {
            Some(z) => z.compression_algorithm,
            None => None,
        },
        report_pending(d, s, current_sysctl, current_zram, o, scales, facts).swapfile is Some,
        facts.zswap_enabled,
    );
    lemma_stages_match_pending(d, s, current_sysctl, current_zram, o, scales, facts);
    lemma_preface_stages_nothing(d, s.zram_devices@.len() == 0);
    lemma_advisory_stages_nothing(
        sv(d.root_filesystem),
        s.zram_devices@,
        s.swaps@,
        match current_zram {
            Some(z) => z.compression_algorithm,
            None => None,
        },
        report_pending(d, s, current_sysctl, current_zram, o, scales, facts).swapfile is Some,
        facts.zswap_enabled,
    );
    lemma_any_concat(st.0.0, st.1.0);
    lemma_any_concat(st.0.0 + st.1.0, st.2.0);
    lemma_any_concat(pre, st.0.0 + st.1.0 + st.2.0);
    lemma_any_concat(pre + (st.0.0 + st.1.0 + st.2.0), adv);
}

/// Whatever the report stages keeps the tiers apart and the knobs in range:
/// staged sysctl values are the zram tuning defaults (which pass validation),
/// a staged zram device is `zram0` with priority 100, and a staged overflow
/// swapfile is /swap/swapfile with priority 10 and the selected tier's size
/// (above 0, at most 16 GiB; at the default tier the RAM in MiB capped at
/// 8192), staged only when no disk swap is active or configured. Nothing is
/// disabled, resized or removed.
pub proof fn lemma_staged_values_sound(
    d: DetectionReport,
    s: StatusReport,
    current_sysctl: Option<SysctlValues>,
    current_zram: Option<ZramConfigView>,
    o: OverflowInputs,
    scales: RecommendScales,
    facts: HostFacts,
)
    ensures
        ({
            let p = report_pending(d, s, current_sysctl, current_zram, o, scales, facts);
            &&& p.sysctl is Some ==> crate::sysctl::sysctl_in_range(p.sysctl->0)
            &&& p.sysctl is Some ==> p.sysctl->0 == spec_zram_tuning_defaults()
            &&& p.zram is Some ==> p.zram->0.swap_priority == Some(100i32)
            &&& p.zram is Some ==> p.zram->0.device == "zram0"@
            &&& p.swapfile is Some ==> p.swapfile->0.priority == 10 && p.swapfile->0.size_mb
                <= super::types::OVERFLOW_SWAPFILE_HIGH_MAX_MB
            &&& p.swapfile is Some ==> p.swapfile->0.path == OVERFLOW_SWAPFILE_PATH@ && p.swapfile->0.size_mb
                == super::scales::spec_overflow_for_scale(s.memory.mem_total_kb, scales.swapfile)
                && p.swapfile->0.size_mb > 0 && !spec_active_disk_swap(s.swaps@) && !o.configured_disk_swap
            &&& (p.swapfile is Some && scales.swapfile == RecommendSizeScale::Default) ==> p.swapfile->0.size_mb == (
                if s.memory.mem_total_kb / 1024 <= 8192 {
                    s.memory.mem_total_kb / 1024
                } else {
                    8192
                })
            &&& !p.disable_zram && p.swapfile_resize is None && p.remove_swapfile is None
        }),
{
    let p = report_pending(d, s, current_sysctl, current_zram, o, scales, facts);
    if !staging_blocked(d) {
        match report_decision(s, o, scales) {
            DecisionView::Stage(c) => {
                super::overflow::lemma_staged_overflow_bounds(
                    s.swaps@,
                    s.memory.mem_total_kb,
                    o.configured_disk_swap,
                    strings_view(o.configured_paths@),
                    o.available_bytes,
                    scales.swapfile,
                );
            },
            _ => {},
        }
    }
}

/// What the zram part adds: one item, then the resident-limit note exactly
/// for the performance profile. Hibernation on zram stages nothing (a note);
/// otherwise, when the current device needs an update, the device for
/// staging is staged with a zram item that stages; else only a note.
pub proof fn lemma_zram_stage_shape(
    profile: RecommendProfile,
    recommended: ZramConfigView,
    current: Option<ZramConfigView>,
    mem_total_kb: u64,
    no_devices: bool,
    hibernate_blocks: bool,
)
    ensures
        ({
            let r = zram_stage(profile, recommended, current, mem_total_kb, no_devices, hibernate_blocks);
            let ram_mb = (mem_total_kb / 1024) as u64;
            &&& r.0.len() == (if profile == RecommendProfile::Performance { 2int } else { 1int })
            &&& hibernate_blocks ==> r.1 is None && r.0[0].category == "note"@ && !r.0[0].will_stage
            &&& (!hibernate_blocks && spec_zram_needs_update(current, recommended, ram_mb)) ==> r.1 == Some(
                spec_for_staging(current, recommended, ram_mb),
            ) && r.0[0].category == "zram"@ && r.0[0].will_stage
            &&& (!hibernate_blocks && !spec_zram_needs_update(current, recommended, ram_mb)) ==> r.1 is None
                && r.0[0].category == "note"@ && !r.0[0].will_stage
            &&& profile == RecommendProfile::Performance ==> r.0[1].summary == "Performance profile resident-limit"@
                && r.0[1].category == "note"@ && !r.0[1].will_stage
        }),
{
}

/// What the overflow part adds for each decision: for a staged swapfile, a
/// swapfile item that stages then the dual-tier note; for configured disk
/// swap or too little space, one note; otherwise nothing. Only a staged
/// decision stages the swapfile.
pub proof fn lemma_overflow_stage_shape(d: DecisionView)
    ensures
        ({
            let r = overflow_stage(d);
            &&& d matches DecisionView::Stage(c) ==> r.1 == Some(c) && r.0.len() == 2 && r.0[0].category
                == "swapfile"@ && r.0[0].will_stage && r.0[1].summary == "Dual-tier swap tradeoff"@
                && r.0[1].category == "note"@ && !r.0[1].will_stage
            &&& (d is SkipConfiguredDiskSwap || d is SkipInsufficientSpace) ==> r.1 is None && r.0.len() == 1
                && r.0[0].category == "note"@ && !r.0[0].will_stage
            &&& (d is SkipActiveDiskSwap || d is SkipZeroSize) ==> r.1 is None && r.0.len() == 0
        }),
{
}

/// Some item of category `category` stages something.
pub open spec fn staged_in(items: Seq<ItemView>, category: Seq<char>) -> bool {
    exists|i: int| 0 <= i < items.len() && (#[trigger] items[i]).will_stage && items[i].category == category
}

/// Every item that stages has category `category`.
pub open spec fn stages_only(items: Seq<ItemView>, category: Seq<char>) -> bool {
    forall|i: int| 0 <= i < items.len() && (#[trigger] items[i]).will_stage ==> items[i].category == category
}

proof fn lemma_staged_in_concat(a: Seq<ItemView>, b: Seq<ItemView>, c: Seq<char>)
    ensures
        staged_in(a + b, c) == (staged_in(a, c) || staged_in(b, c)),
{
    let x = a + b;
    if staged_in(x, c) {
        let i = choose|i: int| 0 <= i < x.len() && (#[trigger] x[i]).will_stage && x[i].category == c;
        if i < a.len() {
            assert(a[i] == x[i]);
        } else {
            assert(b[i - a.len()] == x[i]);
        }
    }
    if staged_in(a, c) {
        let i = choose|i: int| 0 <= i < a.len() && (#[trigger] a[i]).will_stage && a[i].category == c;
        assert(x[i] == a[i]);
    }
    if staged_in(b, c) {
        let i = choose|i: int| 0 <= i < b.len() && (#[trigger] b[i]).will_stage && b[i].category == c;
        assert(x[a.len() + i] == b[i]);
    }
}

proof fn lemma_staged_in_quiet(a: Seq<ItemView>, c: Seq<char>)
    requires
        !any_will_stage(a),
    ensures
        !staged_in(a, c),
{
    if staged_in(a, c) {
        let i = choose|i: int| 0 <= i < a.len() && (#[trigger] a[i]).will_stage && a[i].category == c;
        assert(a[i].will_stage);
    }
}

proof fn lemma_stages_only(a: Seq<ItemView>, c: Seq<char>, other: Seq<char>)
    requires
        stages_only(a, c),
        other != c,
    ensures
        staged_in(a, c) == any_will_stage(a),
        !staged_in(a, other),
{
    if any_will_stage(a) {
        let i = choose|i: int| 0 <= i < a.len() && (#[trigger] a[i]).will_stage;
        assert(a[i].category == c);
    }
    if staged_in(a, c) {
        let i = choose|i: int| 0 <= i < a.len() && (#[trigger] a[i]).will_stage && a[i].category == c;
        assert(a[i].will_stage);
    }
    if staged_in(a, other) {
        let i = choose|i: int| 0 <= i < a.len() && (#[trigger] a[i]).will_stage && a[i].category == other;
        assert(a[i].category == c);
    }
}

proof fn lemma_parts_stage_only(
    d: DetectionReport,
    s: StatusReport,
    current_sysctl: Option<SysctlValues>,
    current_zram: Option<ZramConfigView>,
    o: OverflowInputs,
    scales: RecommendScales,
    facts: HostFacts,
)
    ensures
        ({
            let st = report_stages(d, s, current_sysctl, current_zram, o, scales, facts);
            &&& stages_only(st.0.0, "zram"@)
            &&& stages_only(st.1.0, "sysctl"@)
            &&& stages_only(st.2.0, "swapfile"@)
        }),
{
    let st = report_stages(d, s, current_sysctl, current_zram, o, scales, facts);
    let profile = report_profile(d, s);
    let recommended = spec_recommended_zram(
        profile,
        d.distro.family,
        d.distro.id@,
        s.memory.mem_total_kb,
        facts.cpu_cores,
        scales.zram,
    );
    lemma_zram_stage_shape(
        profile,
        recommended,
        current_zram,
        s.memory.mem_total_kb,
        s.zram_devices@.len() == 0,
        facts.hibernation_blocks_zram,
    );
    lemma_overflow_stage_shape(report_decision(s, o, scales));
    assert forall|i: int| 0 <= i < st.0.0.len() && (#[trigger] st.0.0[i]).will_stage implies st.0.0[i].category
        == "zram"@ by {
        assert(i == 0 || i == 1);
    }
    assert forall|i: int| 0 <= i < st.2.0.len() && (#[trigger] st.2.0[i]).will_stage implies st.2.0[i].category
        == "swapfile"@ by {
        assert(i == 0 || i == 1);
    }
}

proof fn lemma_items_staged_in(
    d: DetectionReport,
    s: StatusReport,
    current_sysctl: Option<SysctlValues>,
    current_zram: Option<ZramConfigView>,
    o: OverflowInputs,
    scales: RecommendScales,
    facts: HostFacts,
    c: Seq<char>,
)
    requires
        !staging_blocked(d),
    ensures
        ({
            let st = report_stages(d, s, current_sysctl, current_zram, o, scales, facts);
            let items = report_items(d, s, current_sysctl, current_zram, o, scales, facts);
            staged_in(items, c) == (staged_in(st.0.0, c) || staged_in(st.1.0, c) || staged_in(st.2.0, c))
        }),
{
    let st = report_stages(d, s, current_sysctl, current_zram, o, scales, facts);
    let items = report_items(d, s, current_sysctl, current_zram, o, scales, facts);
    let pre = preface_notes(d, s.zram_devices@.len() == 0);
    let adv = spec_advisory(
        sv(d.root_filesystem),
        s.zram_devices@,
        s.swaps@,
        match current_zram {
            Some(zz) => zz.compression_algorithm,
            None => None,
        },
        report_pending(d, s, current_sysctl, current_zram, o, scales, facts).swapfile is Some,
        facts.zswap_enabled,
    );
    let body = report_body(d, s, current_sysctl, current_zram, o, scales, facts);
    lemma_preface_stages_nothing(d, s.zram_devices@.len() == 0);
    lemma_advisory_stages_nothing(
        sv(d.root_filesystem),
        s.zram_devices@,
        s.swaps@,
        match current_zram {
            Some(zz) => zz.compression_algorithm,
            None => None,
        },
        report_pending(d, s, current_sysctl, current_zram, o, scales, facts).swapfile is Some,
        facts.zswap_enabled,
    );
    lemma_staged_in_quiet(pre, c);
    lemma_staged_in_quiet(adv, c);
    lemma_staged_in_concat(st.0.0, st.1.0, c);
    lemma_staged_in_concat(st.0.0 + st.1.0, st.2.0, c);
    lemma_staged_in_concat(pre, st.0.0 + st.1.0 + st.2.0, c);
    lemma_staged_in_concat(pre + (st.0.0 + st.1.0 + st.2.0), adv, c);
    assert(body == pre + (st.0.0 + st.1.0 + st.2.0) + adv);
    if items != body {
        let first = spec_note(
            "System already matches recommended defaults"@,
            "No configuration changes will be staged."@,
            None,
        );
        lemma_single(first);
        lemma_staged_in_quiet(seq![first], c);
        lemma_staged_in_concat(seq![first], body, c);
        assert(items == seq![first] + body);
    }
}

/// The staging items say what is staged, category by category: some
/// "zram" item stages exactly when a zram device is staged, some "sysctl"
/// item exactly when sysctl values are, some "swapfile" item exactly when a
/// swapfile is. The report never stages a disable, resize or removal.
pub proof fn lemma_staged_categories(
    d: DetectionReport,
    s: StatusReport,
    current_sysctl: Option<SysctlValues>,
    current_zram: Option<ZramConfigView>,
    o: OverflowInputs,
    scales: RecommendScales,
    facts: HostFacts,
)
    ensures
        ({
            let p = report_pending(d, s, current_sysctl, current_zram, o, scales, facts);
            let items = report_items(d, s, current_sysctl, current_zram, o, scales, facts);
            &&& staged_in(items, "zram"@) == (p.zram is Some)
            &&& staged_in(items, "sysctl"@) == (p.sysctl is Some)
            &&& staged_in(items, "swapfile"@) == (p.swapfile is Some)
            &&& !p.disable_zram && p.swapfile_resize is None && p.remove_swapfile is None
        }),
{
    let z = "zram"@;
    let y = "sysctl"@;
    let w = "swapfile"@;
    reveal_strlit("zram");
    reveal_strlit("sysctl");
    reveal_strlit("swapfile");
    assert(z.len() == 4 && y.len() == 6 && w.len() == 8);
    let items = report_items(d, s, current_sysctl, current_zram, o, scales, facts);
    if staging_blocked(d) {
        lemma_blocked_stages_nothing(d, s, current_sysctl, current_zram, o, scales, facts);
        lemma_staged_in_quiet(items, z);
        lemma_staged_in_quiet(items, y);
        lemma_staged_in_quiet(items, w);
    } else {
        let st = report_stages(d, s, current_sysctl, current_zram, o, scales, facts);
        lemma_stages_match_pending(d, s, current_sysctl, current_zram, o, scales, facts);
        lemma_parts_stage_only(d, s, current_sysctl, current_zram, o, scales, facts);
        lemma_stages_only(st.0.0, z, y);
        lemma_stages_only(st.0.0, z, w);
        lemma_stages_only(st.1.0, y, z);
        lemma_stages_only(st.1.0, y, w);
        lemma_stages_only(st.2.0, w, z);
        lemma_stages_only(st.2.0, w, y);
        lemma_items_staged_in(d, s, current_sysctl, current_zram, o, scales, facts, z);
        lemma_items_staged_in(d, s, current_sysctl, current_zram, o, scales, facts, y);
        lemma_items_staged_in(d, s, current_sysctl, current_zram, o, scales, facts, w);
        let p = report_pending(d, s, current_sysctl, current_zram, o, scales, facts);
        assert(p.zram == st.0.1 && p.sysctl == st.1.1 && p.swapfile == st.2.1);
    }
}

/// The summary of the note that opens a report which stages nothing.
pub open spec fn matches_summary() -> Seq<char> {
    "System already matches recommended defaults"@
}

proof fn lemma_preface_lacks_match(d: DetectionReport, no_devices: bool)
    ensures
        lacks_summary(preface_notes(d, no_devices), matches_summary()),
{
    let m = matches_summary();
    reveal_strlit("System already matches recommended defaults");
    reveal_strlit("Read-only /etc: cannot stage configuration");
    reveal_strlit("Immutable OS: cannot stage configuration");
    reveal_strlit("Legacy zram-tools configuration detected");
    reveal_strlit("No zram backend detected");
    lemma_differ_at("Read-only /etc: cannot stage configuration"@, m, 0);
    lemma_differ_at("Immutable OS: cannot stage configuration"@, m, 0);
    lemma_differ_at("Legacy zram-tools configuration detected"@, m, 0);
    lemma_differ_at("No zram backend detected"@, m, 0);
    let p = preface_notes(d, no_devices);
    assert forall|i: int| 0 <= i < p.len() implies (#[trigger] p[i]).summary != m by {
        let a = (!d.etc_writable) as int;
        let b = a + (d.immutable_os as int);
        let c = b + ((d.zram_backend == ZramBackend::ZramTools) as int);
        if i < a {
        } else if i < b {
        } else if i < c {
        } else {
        }
    }
}

proof fn lemma_parts_lack_match(
    d: DetectionReport,
    s: StatusReport,
    current_sysctl: Option<SysctlValues>,
    current_zram: Option<ZramConfigView>,
    o: OverflowInputs,
    scales: RecommendScales,
    facts: HostFacts,
)
    ensures
        ({
            let st = report_stages(d, s, current_sysctl, current_zram, o, scales, facts);
            &&& lacks_summary(st.0.0, matches_summary())
            &&& lacks_summary(st.1.0, matches_summary())
            &&& lacks_summary(st.2.0, matches_summary())
        }),
{
    let m = matches_summary();
    let st = report_stages(d, s, current_sysctl, current_zram, o, scales, facts);
    reveal_strlit("System already matches recommended defaults");
    reveal_strlit("Hibernation conflict: zram staging skipped");
    reveal_strlit("Configure ZRAM (");
    reveal_strlit("ZRAM configuration already matches recommendations");
    reveal_strlit("Active ZRAM already matches recommended settings");
    reveal_strlit("Performance profile resident-limit");
    reveal_strlit("Apply zram sysctl tuning defaults");
    reveal_strlit("Sysctl values already match zram tuning defaults");
    reveal_strlit("Create overflow swap file (");
    reveal_strlit("Dual-tier swap tradeoff");
    reveal_strlit("Configured disk swap already present");
    reveal_strlit("Insufficient free disk space for overflow swapfile");
    lemma_differ_at("Hibernation conflict: zram staging skipped"@, m, 0);
    lemma_differ_at("ZRAM configuration already matches recommendations"@, m, 0);
    lemma_differ_at("Active ZRAM already matches recommended settings"@, m, 0);
    lemma_differ_at("Performance profile resident-limit"@, m, 0);
    lemma_differ_at("Apply zram sysctl tuning defaults"@, m, 0);
    lemma_differ_at("Sysctl values already match zram tuning defaults"@, m, 3);
    lemma_differ_at("Dual-tier swap tradeoff"@, m, 0);
    lemma_differ_at("Configured disk swap already present"@, m, 0);
    lemma_differ_at("Insufficient free disk space for overflow swapfile"@, m, 0);
    assert forall|i: int| 0 <= i < st.0.0.len() implies (#[trigger] st.0.0[i]).summary != m by {
        if st.0.0[i].summary.len() > 0 && st.0.0[i].summary[0] == 'C' {
            lemma_differ_at(st.0.0[i].summary, m, 0);
        }
    }
    assert forall|i: int| 0 <= i < st.2.0.len() implies (#[trigger] st.2.0[i]).summary != m by {
        if st.2.0[i].summary.len() > 0 && st.2.0[i].summary[0] == 'C' {
            lemma_differ_at(st.2.0[i].summary, m, 0);
        }
    }
}

/// The note that the system already matches opens the report exactly when
/// staging is possible and nothing is staged; no other item carries its
/// summary.
pub proof fn lemma_matches_note_first(
    d: DetectionReport,
    s: StatusReport,
    current_sysctl: Option<SysctlValues>,
    current_zram: Option<ZramConfigView>,
    o: OverflowInputs,
    scales: RecommendScales,
    facts: HostFacts,
)
    ensures
        ({
            let p = report_pending(d, s, current_sysctl, current_zram, o, scales, facts);
            let items = report_items(d, s, current_sysctl, current_zram, o, scales, facts);
            &&& items.len() > 0
            &&& (items[0].summary == matches_summary()) == (!staging_blocked(d) && spec_is_empty(p))
            &&& forall|i: int| 1 <= i < items.len() ==> (#[trigger] items[i]).summary != matches_summary()
        }),
{
    let m = matches_summary();
    let p = report_pending(d, s, current_sysctl, current_zram, o, scales, facts);
    let items = report_items(d, s, current_sysctl, current_zram, o, scales, facts);
    let body = report_body(d, s, current_sysctl, current_zram, o, scales, facts);
    let st = report_stages(d, s, current_sysctl, current_zram, o, scales, facts);
    let pre = preface_notes(d, s.zram_devices@.len() == 0);
    let alg = match current_zram {
        Some(zz) => zz.compression_algorithm,
        None => None,
    };
    let adv = spec_advisory(
        sv(d.root_filesystem),
        s.zram_devices@,
        s.swaps@,
        alg,
        p.swapfile is Some,
        facts.zswap_enabled,
    );
    let staged = if staging_blocked(d) {
        Seq::<ItemView>::empty()
    } else {
        st.0.0 + st.1.0 + st.2.0
    };
    assert(body == pre + staged + adv);
    lemma_advisory_shape(sv(d.root_filesystem), s.zram_devices@, s.swaps@, alg, p.swapfile is Some, facts.zswap_enabled);
    lemma_advisory_lacks_match(sv(d.root_filesystem), s.zram_devices@, s.swaps@, alg, p.swapfile is Some, facts.zswap_enabled);
    lemma_preface_lacks_match(d, s.zram_devices@.len() == 0);
    lemma_parts_lack_match(d, s, current_sysctl, current_zram, o, scales, facts);
    lemma_lacks_concat(st.0.0, st.1.0, m);
    lemma_lacks_concat(st.0.0 + st.1.0, st.2.0, m);
    assert(lacks_summary(staged, m));
    lemma_lacks_concat(pre, staged, m);
    lemma_lacks_concat(pre + staged, adv, m);
    assert(lacks_summary(body, m));
    assert(body.len() > 0);
    if staging_blocked(d) {
        assert(items == body);
        assert(items[0].summary != m);
    } else {
        lemma_staging_items_match_pending(d, s, current_sysctl, current_zram, o, scales, facts);
        if p.zram is Some || p.sysctl is Some || p.swapfile is Some {
            assert(items == body);
            assert(items[0].summary != m);
        } else {
            assert(items[0].summary == m);
            assert(spec_is_empty(p));
            assert forall|i: int| 1 <= i < items.len() implies (#[trigger] items[i]).summary != m by {
                assert(items[i] == body[i - 1]);
            }
        }
    }
}

} // verus!
