//! The steps of linked optimization: filling, sanitizing and aligning the
//! staged fields.
use vstd::prelude::*;

use super::engine_build::or_text;
use super::link_types::{strs, Linked, LinkedAnchor, LinkedOptimizeContext};
use super::scales::{overflow_size_mb_for_scale, spec_overflow_for_scale, RecommendSizeScale};
use super::types::{OVERFLOW_SWAPFILE_PATH, OVERFLOW_SWAP_PRIORITY};
use crate::apply::types::{
    copy_string, PendingConfig, PendingView, SwapfileConfig, SwapfileConfigView, SwapfileResizeConfig,
    SwapfileResizeView, ZramConfig, ZramConfigView,
};
use crate::num::{int_str, nat_str, push_int, push_nat};
use crate::sysctl::{spec_zram_tuning_defaults, zram_tuning_defaults, SysctlValues};
use crate::text::{owned, push_str};
use crate::validation::{valid_priority, valid_swapfile_path, valid_zram_config, validate_swapfile_path, validate_zram_config};

verus! {

// ---------------------------------------------------------------------------
// The steps as functions of the state
// ---------------------------------------------------------------------------

pub open spec fn with_note(l: Linked, msg: Seq<char>) -> Linked {
    Linked { pending: l.pending, adj: l.adj.push(msg) }
}

pub open spec fn with_pending(l: Linked, p: PendingView) -> Linked {
    Linked { pending: p, adj: l.adj }
}

/// Fills a missing zram device from the defaults, unless zram is being
/// disabled.
pub open spec fn spec_ensure_zram(l: Linked, d: ZramConfigView) -> Linked {
    if l.pending.disable_zram || l.pending.zram is Some {
        l
    } else {
        with_note(
            with_pending(l, PendingView { zram: Some(d), ..l.pending }),
            "Filled ZRAM from recommended defaults."@,
        )
    }
}

/// An invalid zram device is replaced by the defaults, keeping the edited
/// field where it is valid on its own; an invalid priority alone becomes 100.
pub open spec fn spec_sanitize_zram(anchor: LinkedAnchor, l: Linked, d: ZramConfigView) -> Linked {
    match l.pending.zram {
        None => l,
        Some(z) => if !valid_zram_config(z) {
            let (fixed, msg): (ZramConfigView, Option<Seq<char>>) = match anchor {
                LinkedAnchor::ZramSize => match z.zram_size {
                    Some(size) => if valid_zram_config(ZramConfigView { zram_size: Some(size), ..d }) {
                        (ZramConfigView { zram_size: Some(size), ..d }, None)
                    } else {
                        (d, Some("Invalid zram-size replaced with "@ + or_text(d.zram_size, "recommended"@) + "."@))
                    },
                    None => (d, None),
                },
                LinkedAnchor::ZramAlgo => match z.compression_algorithm {
                    Some(a) => if valid_zram_config(ZramConfigView { compression_algorithm: Some(a), ..d }) {
                        (ZramConfigView { compression_algorithm: Some(a), ..d }, None)
                    } else {
                        (
                            d,
                            Some(
                                "Invalid algorithm replaced with "@ + or_text(d.compression_algorithm, "zstd"@)
                                    + "."@,
                            ),
                        )
                    },
                    None => (d, None),
                },
                LinkedAnchor::ZramPriority => match z.swap_priority {
                    Some(p) => if valid_priority(p) {
                        (ZramConfigView { swap_priority: Some(p), ..d }, None)
                    } else {
                        (ZramConfigView { swap_priority: Some(100), ..d }, Some("Invalid ZRAM priority replaced with 100."@))
                    },
                    None => (d, None),
                },
                _ => (d, Some("Invalid ZRAM config replaced with recommended defaults."@)),
            };
            let l1 = with_pending(l, PendingView { zram: Some(fixed), ..l.pending });
            match msg {
                Some(m) => with_note(l1, m),
                None => l1,
            }
        } else {
            l
        },
    }
}

/// Fills missing sysctl knobs (or all of them) with the tuning defaults.
pub open spec fn spec_fill_sysctl(l: Linked) -> Linked {
    let d = spec_zram_tuning_defaults();
    match l.pending.sysctl {
        None => with_note(
            with_pending(l, PendingView { sysctl: Some(d), ..l.pending }),
            "Applied zram sysctl tuning defaults."@,
        ),
        Some(sc) => {
            let filled = sc.swappiness is None || sc.watermark_boost_factor is None || sc.watermark_scale_factor is None
                || sc.page_cluster is None;
            let f = SysctlValues {
                swappiness: if sc.swappiness is None { d.swappiness } else { sc.swappiness },
                watermark_boost_factor: if sc.watermark_boost_factor is None {
                    d.watermark_boost_factor
                } else {
                    sc.watermark_boost_factor
                },
                watermark_scale_factor: if sc.watermark_scale_factor is None {
                    d.watermark_scale_factor
                } else {
                    sc.watermark_scale_factor
                },
                page_cluster: if sc.page_cluster is None { d.page_cluster } else { sc.page_cluster },
            };
            let l1 = with_pending(l, PendingView { sysctl: Some(f), ..l.pending });
            if filled {
                with_note(l1, "Filled missing sysctl knobs with zram tuning defaults."@)
            } else {
                l1
            }
        },
    }
}

pub open spec fn clamp_opt(v: Option<u32>, max: u32) -> Option<u32> {
    match v {
        Some(x) => Some(if x <= max { x } else { max }),
        None => None,
    }
}

pub open spec fn above(v: Option<u32>, max: u32) -> bool {
    v matches Some(x) && x > max
}

/// Clamps the staged sysctl knobs into their validated ranges.
pub open spec fn spec_sanitize_sysctl(l: Linked) -> Linked {
    match l.pending.sysctl {
        None => l,
        Some(sc) => {
            let c = SysctlValues {
                swappiness: clamp_opt(sc.swappiness, 200),
                watermark_boost_factor: clamp_opt(sc.watermark_boost_factor, 10000),
                watermark_scale_factor: clamp_opt(sc.watermark_scale_factor, 10000),
                page_cluster: clamp_opt(sc.page_cluster, 8),
            };
            let changed = above(sc.swappiness, 200) || above(sc.watermark_boost_factor, 10000) || above(
                sc.watermark_scale_factor,
                10000,
            ) || above(sc.page_cluster, 8);
            let l1 = with_pending(l, PendingView { sysctl: Some(c), ..l.pending });
            if changed {
                with_note(l1, "Sysctl values clamped to validated ranges."@)
            } else {
                l1
            }
        },
    }
}

pub open spec fn overflow_view(size_mb: u64) -> SwapfileConfigView {
    SwapfileConfigView { path: OVERFLOW_SWAPFILE_PATH@, size_mb, priority: OVERFLOW_SWAP_PRIORITY }
}

/// Stages the default-tier overflow swapfile when no disk swap exists and no
/// swapfile operation is staged.
pub open spec fn spec_maybe_overflow(l: Linked, ctx: LinkedOptimizeContext) -> Linked {
    let size = spec_overflow_for_scale(ctx.mem_total_kb, RecommendSizeScale::Default);
    if ctx.has_disk_swap || l.pending.swapfile is Some || l.pending.remove_swapfile is Some || size == 0 {
        l
    } else {
        with_note(
            with_pending(l, PendingView { swapfile: Some(overflow_view(size)), ..l.pending }),
            "Staged overflow swapfile "@ + OVERFLOW_SWAPFILE_PATH@ + " ("@ + nat_str(size as nat) + " MiB, pri "@
                + int_str(OVERFLOW_SWAP_PRIORITY as int) + ")."@,
        )
    }
}

/// The default-tier size, at least 1 MiB.
pub open spec fn fallback_size(mem_total_kb: u64) -> u64 {
    let d = spec_overflow_for_scale(mem_total_kb, RecommendSizeScale::Default);
    if d >= 1 {
        d
    } else {
        1
    }
}

pub open spec fn size_out_of_range(size_mb: u64, mem_total_kb: u64) -> bool {
    size_mb == 0 || size_mb > spec_overflow_for_scale(mem_total_kb, RecommendSizeScale::High)
}

/// Repairs a staged swapfile: an invalid path becomes the overflow path, a
/// size of 0 or above the high tier becomes the default tier, and an invalid
/// priority becomes 10.
pub open spec fn spec_sanitize_create(l: Linked, ctx: LinkedOptimizeContext) -> Linked {
    match l.pending.swapfile {
        None => l,
        Some(sf) => {
            let l1 = if !valid_swapfile_path(sf.path) {
                with_note(
                    with_pending(
                        l,
                        PendingView { swapfile: Some(SwapfileConfigView { path: OVERFLOW_SWAPFILE_PATH@, ..sf }), ..l.pending },
                    ),
                    "Invalid swapfile path replaced with "@ + OVERFLOW_SWAPFILE_PATH@ + "."@,
                )
            } else {
                l
            };
            let sf1 = l1.pending.swapfile->0;
            let l2 = if size_out_of_range(sf1.size_mb, ctx.mem_total_kb) {
                with_note(
                    with_pending(
                        l1,
                        PendingView {
                            swapfile: Some(SwapfileConfigView { size_mb: fallback_size(ctx.mem_total_kb), ..sf1 }),
                            ..l1.pending
                        },
                    ),
                    "Swapfile size adjusted to "@ + nat_str(fallback_size(ctx.mem_total_kb) as nat) + " MiB."@,
                )
            } else {
                l1
            };
            let sf2 = l2.pending.swapfile->0;
            if !valid_priority(sf2.priority) {
                with_note(
                    with_pending(
                        l2,
                        PendingView {
                            swapfile: Some(SwapfileConfigView { priority: OVERFLOW_SWAP_PRIORITY, ..sf2 }),
                            ..l2.pending
                        },
                    ),
                    "Swapfile priority adjusted to "@ + int_str(OVERFLOW_SWAP_PRIORITY as int) + "."@,
                )
            } else {
                l2
            }
        },
    }
}

/// Repairs a staged resize: an invalid path drops it, a size of 0 or above
/// the high tier becomes the default tier.
pub open spec fn spec_sanitize_resize(l: Linked, ctx: LinkedOptimizeContext) -> Linked {
    match l.pending.swapfile_resize {
        None => l,
        Some(rz) => if !valid_swapfile_path(rz.path) {
            with_note(
                with_pending(l, PendingView { swapfile_resize: None, ..l.pending }),
                "Invalid resize path cleared."@,
            )
        } else if size_out_of_range(rz.size_mb, ctx.mem_total_kb) {
            with_note(
                with_pending(
                    l,
                    PendingView {
                        swapfile_resize: Some(SwapfileResizeView { size_mb: fallback_size(ctx.mem_total_kb), ..rz }),
                        ..l.pending
                    },
                ),
                "Resize size adjusted to "@ + nat_str(fallback_size(ctx.mem_total_kb) as nat) + " MiB."@,
            )
        } else {
            l
        },
    }
}

/// Drops a staged removal whose path is invalid.
pub open spec fn spec_sanitize_remove(l: Linked) -> Linked {
    match l.pending.remove_swapfile {
        Some(p) => if !valid_swapfile_path(p) {
            with_note(
                with_pending(l, PendingView { remove_swapfile: None, ..l.pending }),
                "Invalid remove path cleared."@,
            )
        } else {
            l
        },
        None => l,
    }
}

pub open spec fn or_pri(p: Option<i32>, d: i32) -> i32 {
    match p {
        Some(x) => x,
        None => d,
    }
}

/// The zram priority that a swapfile must stay below.
pub open spec fn reference_priority(p: PendingView, ctx: LinkedOptimizeContext) -> i32 {
    let d: i32 = if ctx.has_active_zram { 100 } else { 0 };
    match p.zram {
        Some(z) => or_pri(z.swap_priority, d),
        None => d,
    }
}

/// Puts the swapfile below zram: a swapfile at or above a positive zram
/// priority drops to `min(10, zram - 1)`; then a zram device at or below the
/// swapfile (or, with no staged swapfile, below 100 next to disk swap) rises
/// to 100.
pub open spec fn spec_align(l: Linked, ctx: LinkedOptimizeContext) -> Linked {
    let zp = reference_priority(l.pending, ctx);
    let l1 = match l.pending.swapfile {
        Some(sf) => if sf.priority >= zp && zp > 0 {
            let np: i32 = if zp - 1 <= OVERFLOW_SWAP_PRIORITY { (zp - 1) as i32 } else { OVERFLOW_SWAP_PRIORITY };
            with_note(
                with_pending(l, PendingView { swapfile: Some(SwapfileConfigView { priority: np, ..sf }), ..l.pending }),
                "Overflow swap priority set to "@ + int_str(np as int) + " below ZRAM."@,
            )
        } else {
            l
        },
        None => l,
    };
    match l1.pending.zram {
        Some(z) => match l1.pending.swapfile {
            Some(sf) => if or_pri(z.swap_priority, 0) <= sf.priority {
                with_note(
                    with_pending(
                        l1,
                        PendingView { zram: Some(ZramConfigView { swap_priority: Some(100), ..z }), ..l1.pending },
                    ),
                    "ZRAM priority raised to 100 above overflow swap."@,
                )
            } else {
                l1
            },
            None => if ctx.has_disk_swap && or_pri(z.swap_priority, 0) < 100 {
                with_note(
                    with_pending(
                        l1,
                        PendingView { zram: Some(ZramConfigView { swap_priority: Some(100), ..z }), ..l1.pending },
                    ),
                    "ZRAM priority raised to 100 above disk swap."@,
                )
            } else {
                l1
            },
        },
        None => l1,
    }
}

/// What editing a zram field implies for the rest of the configuration.
pub open spec fn spec_dependents(anchor: LinkedAnchor, l: Linked, d: ZramConfigView, ctx: LinkedOptimizeContext) -> Linked {
    match anchor {
        LinkedAnchor::ZramSize => {
            let l1 = match l.pending.zram {
                Some(z) => with_pending(
                    l,
                    PendingView {
                        zram: Some(
                            ZramConfigView {
                                compression_algorithm: if z.compression_algorithm is None {
                                    d.compression_algorithm
                                } else {
                                    z.compression_algorithm
                                },
                                swap_priority: if z.swap_priority is None { Some(100i32) } else { z.swap_priority },
                                zram_resident_limit: d.zram_resident_limit,
                                ..z
                            },
                        ),
                        ..l.pending
                    },
                ),
                None => l,
            };
            spec_maybe_overflow(spec_fill_sysctl(l1), ctx)
        },
        LinkedAnchor::ZramAlgo => {
            let l1 = match l.pending.zram {
                Some(z) => if (ctx.has_disk_swap || l.pending.swapfile is Some) && or_pri(z.swap_priority, 0) < 100 {
                    with_note(
                        with_pending(
                            l,
                            PendingView { zram: Some(ZramConfigView { swap_priority: Some(100), ..z }), ..l.pending },
                        ),
                        "ZRAM priority set to 100 above disk swap."@,
                    )
                } else {
                    l
                },
                None => l,
            };
            let l2 = spec_fill_sysctl(l1);
            let sc = l2.pending.sysctl->0;
            if sc.page_cluster != Some(0u32) {
                with_note(
                    with_pending(l2, PendingView { sysctl: Some(SysctlValues { page_cluster: Some(0), ..sc }), ..l2.pending }),
                    "page-cluster set to 0 for zram."@,
                )
            } else {
                l2
            }
        },
        LinkedAnchor::ZramPriority => spec_align(l, ctx),
        _ => l,
    }
}

// ---------------------------------------------------------------------------
// The steps
// ---------------------------------------------------------------------------

pub fn adjust(adjustments: &mut Vec<String>, msg: String)
    ensures
        strs(final(adjustments)@) == strs(old(adjustments)@).push(msg@),
{
    adjustments.push(msg);
    assert(strs(adjustments@) =~= strs(old(adjustments)@).push(msg@));
}

pub fn ensure_zram(pending: &mut PendingConfig, defaults: &ZramConfig, adjustments: &mut Vec<String>)
    ensures
        final(pending)@ == spec_ensure_zram(Linked { pending: old(pending)@, adj: strs(old(adjustments)@) }, defaults@).pending,
        strs(final(adjustments)@) == spec_ensure_zram(
            Linked { pending: old(pending)@, adj: strs(old(adjustments)@) },
            defaults@,
        ).adj,
{
    if pending.disable_zram {
        return;
    }
    if pending.zram.is_none() {
        pending.zram = Some(defaults.duplicate());
        adjust(adjustments, owned("Filled ZRAM from recommended defaults."));
    }
}

fn zram_with_size(d: &ZramConfig, size: &String) -> (z: ZramConfig)
    ensures
        z@ == (ZramConfigView { zram_size: Some(size@), ..d@ }),
{
    let mut z = d.duplicate();
    z.zram_size = Some(copy_string(size));
    z
}

fn zram_with_algorithm(d: &ZramConfig, a: &String) -> (z: ZramConfig)
    ensures
        z@ == (ZramConfigView { compression_algorithm: Some(a@), ..d@ }),
{
    let mut z = d.duplicate();
    z.compression_algorithm = Some(copy_string(a));
    z
}

fn zram_with_priority(d: &ZramConfig, p: i32) -> (z: ZramConfig)
    ensures
        z@ == (ZramConfigView { swap_priority: Some(p), ..d@ }),
{
    let mut z = d.duplicate();
    z.swap_priority = Some(p);
    z
}

fn text_or(o: &Option<String>, d: &str) -> (s: String)
    ensures
        s@ == or_text(crate::apply::types::sv(*o), d@),
{
    match o {
        Some(t) => copy_string(t),
        None => owned(d),
    }
}

pub fn sanitize_zram(
    anchor: LinkedAnchor,
    pending: &mut PendingConfig,
    defaults: &ZramConfig,
    adjustments: &mut Vec<String>,
)
    ensures
        final(pending)@ == spec_sanitize_zram(
            anchor,
            Linked { pending: old(pending)@, adj: strs(old(adjustments)@) },
            defaults@,
        ).pending,
        strs(final(adjustments)@) == spec_sanitize_zram(
            anchor,
            Linked { pending: old(pending)@, adj: strs(old(adjustments)@) },
            defaults@,
        ).adj,
{
    let z = match &pending.zram {
        Some(z) => z.duplicate(),
        None => return,
    };
    if validate_zram_config(&z).is_err() {
        let fixed = match anchor {
            LinkedAnchor::ZramSize => match &z.zram_size {
                Some(size) => {
                    let probe = zram_with_size(defaults, size);
                    if validate_zram_config(&probe).is_ok() {
                        probe
                    } else {
                        let mut m = owned("Invalid zram-size replaced with ");
                        let d = text_or(&defaults.zram_size, "recommended");
                        push_str(&mut m, d.as_str());
                        push_str(&mut m, ".");
                        adjust(adjustments, m);
                        defaults.duplicate()
                    }
                },
                None => defaults.duplicate(),
            },
            LinkedAnchor::ZramAlgo => match &z.compression_algorithm {
                Some(a) => {
                    let probe = zram_with_algorithm(defaults, a);
                    if validate_zram_config(&probe).is_ok() {
                        probe
                    } else {
                        let mut m = owned("Invalid algorithm replaced with ");
                        let d = text_or(&defaults.compression_algorithm, "zstd");
                        push_str(&mut m, d.as_str());
                        push_str(&mut m, ".");
                        adjust(adjustments, m);
                        defaults.duplicate()
                    }
                },
                None => defaults.duplicate(),
            },
            LinkedAnchor::ZramPriority => match z.swap_priority {
                Some(p) => if -1 <= p && p <= 32767 {
                    zram_with_priority(defaults, p)
                } else {
                    adjust(adjustments, owned("Invalid ZRAM priority replaced with 100."));
                    zram_with_priority(defaults, 100)
                },
                None => defaults.duplicate(),
            },
            _ => {
                adjust(adjustments, owned("Invalid ZRAM config replaced with recommended defaults."));
                defaults.duplicate()
            },
        };
        pending.zram = Some(fixed);
    }
}

pub fn fill_sysctl_defaults(pending: &mut PendingConfig, adjustments: &mut Vec<String>)
    ensures
        final(pending)@ == spec_fill_sysctl(Linked { pending: old(pending)@, adj: strs(old(adjustments)@) }).pending,
        strs(final(adjustments)@) == spec_fill_sysctl(
            Linked { pending: old(pending)@, adj: strs(old(adjustments)@) },
        ).adj,
{
    let d = zram_tuning_defaults();
    match pending.sysctl {
        None => {
            pending.sysctl = Some(d);
            adjust(adjustments, owned("Applied zram sysctl tuning defaults."));
        },
        Some(sc) => {
            let filled = sc.swappiness.is_none() || sc.watermark_boost_factor.is_none()
                || sc.watermark_scale_factor.is_none() || sc.page_cluster.is_none();
            let f = SysctlValues {
                swappiness: if sc.swappiness.is_none() { d.swappiness } else { sc.swappiness },
                watermark_boost_factor: if sc.watermark_boost_factor.is_none() {
                    d.watermark_boost_factor
                } else {
                    sc.watermark_boost_factor
                },
                watermark_scale_factor: if sc.watermark_scale_factor.is_none() {
                    d.watermark_scale_factor
                } else {
                    sc.watermark_scale_factor
                },
                page_cluster: if sc.page_cluster.is_none() { d.page_cluster } else { sc.page_cluster },
            };
            pending.sysctl = Some(f);
            if filled {
                adjust(adjustments, owned("Filled missing sysctl knobs with zram tuning defaults."));
            }
        },
    }
}

fn clamp(v: Option<u32>, max: u32) -> (r: (Option<u32>, bool))
    ensures
        r.0 == clamp_opt(v, max),
        r.1 == above(v, max),
{
    match v {
        Some(x) => if x <= max {
            (Some(x), false)
        } else {
            (Some(max), true)
        },
        None => (None, false),
    }
}

pub fn sanitize_sysctl(pending: &mut PendingConfig, adjustments: &mut Vec<String>)
    ensures
        final(pending)@ == spec_sanitize_sysctl(Linked { pending: old(pending)@, adj: strs(old(adjustments)@) }).pending,
        strs(final(adjustments)@) == spec_sanitize_sysctl(
            Linked { pending: old(pending)@, adj: strs(old(adjustments)@) },
        ).adj,
{
    let sc = match pending.sysctl {
        Some(sc) => sc,
        None => return,
    };
    let (s, c1) = clamp(sc.swappiness, 200);
    let (b, c2) = clamp(sc.watermark_boost_factor, 10000);
    let (w, c3) = clamp(sc.watermark_scale_factor, 10000);
    let (p, c4) = clamp(sc.page_cluster, 8);
    pending.sysctl = Some(SysctlValues { swappiness: s, watermark_boost_factor: b, watermark_scale_factor: w, page_cluster: p });
    if c1 || c2 || c3 || c4 {
        adjust(adjustments, owned("Sysctl values clamped to validated ranges."));
    }
}

pub fn maybe_stage_overflow(pending: &mut PendingConfig, ctx: &LinkedOptimizeContext, adjustments: &mut Vec<String>)
    ensures
        final(pending)@ == spec_maybe_overflow(Linked { pending: old(pending)@, adj: strs(old(adjustments)@) }, *ctx).pending,
        strs(final(adjustments)@) == spec_maybe_overflow(
            Linked { pending: old(pending)@, adj: strs(old(adjustments)@) },
            *ctx,
        ).adj,
{
    if ctx.has_disk_swap || pending.swapfile.is_some() || pending.remove_swapfile.is_some() {
        return;
    }
    let size_mb = overflow_size_mb_for_scale(ctx.mem_total_kb, RecommendSizeScale::Default);
    if size_mb == 0 {
        return;
    }
    pending.swapfile = Some(SwapfileConfig { path: owned(OVERFLOW_SWAPFILE_PATH), size_mb, priority: OVERFLOW_SWAP_PRIORITY });
    let mut m = owned("Staged overflow swapfile ");
    push_str(&mut m, OVERFLOW_SWAPFILE_PATH);
    push_str(&mut m, " (");
    push_nat(&mut m, size_mb);
    push_str(&mut m, " MiB, pri ");
    push_int(&mut m, OVERFLOW_SWAP_PRIORITY as i64);
    push_str(&mut m, ").");
    adjust(adjustments, m);
}

fn fallback_size_of(mem_total_kb: u64) -> (r: u64)
    ensures
        r == fallback_size(mem_total_kb),
{
    let d = overflow_size_mb_for_scale(mem_total_kb, RecommendSizeScale::Default);
    if d >= 1 {
        d
    } else {
        1
    }
}

fn size_out_of_range_of(size_mb: u64, mem_total_kb: u64) -> (r: bool)
    ensures
        r == size_out_of_range(size_mb, mem_total_kb),
{
    size_mb == 0 || size_mb > overflow_size_mb_for_scale(mem_total_kb, RecommendSizeScale::High)
}

pub fn sanitize_swapfile_create(pending: &mut PendingConfig, ctx: &LinkedOptimizeContext, adjustments: &mut Vec<String>)
    ensures
        final(pending)@ == spec_sanitize_create(Linked { pending: old(pending)@, adj: strs(old(adjustments)@) }, *ctx).pending,
        strs(final(adjustments)@) == spec_sanitize_create(
            Linked { pending: old(pending)@, adj: strs(old(adjustments)@) },
            *ctx,
        ).adj,
{
    let mut sf = match &pending.swapfile {
        Some(sf) => sf.duplicate(),
        None => return,
    };
    if validate_swapfile_path(sf.path.as_str()).is_err() {
        sf.path = owned(OVERFLOW_SWAPFILE_PATH);
        let mut m = owned("Invalid swapfile path replaced with ");
        push_str(&mut m, OVERFLOW_SWAPFILE_PATH);
        push_str(&mut m, ".");
        adjust(adjustments, m);
    }
    if size_out_of_range_of(sf.size_mb, ctx.mem_total_kb) {
        sf.size_mb = fallback_size_of(ctx.mem_total_kb);
        let mut m = owned("Swapfile size adjusted to ");
        push_nat(&mut m, sf.size_mb);
        push_str(&mut m, " MiB.");
        adjust(adjustments, m);
    }
    if sf.priority < -1 || sf.priority > 32767 {
        sf.priority = OVERFLOW_SWAP_PRIORITY;
        let mut m = owned("Swapfile priority adjusted to ");
        push_int(&mut m, OVERFLOW_SWAP_PRIORITY as i64);
        push_str(&mut m, ".");
        adjust(adjustments, m);
    }
    pending.swapfile = Some(sf);
}

pub fn sanitize_swapfile_resize(pending: &mut PendingConfig, ctx: &LinkedOptimizeContext, adjustments: &mut Vec<String>)
    ensures
        final(pending)@ == spec_sanitize_resize(Linked { pending: old(pending)@, adj: strs(old(adjustments)@) }, *ctx).pending,
        strs(final(adjustments)@) == spec_sanitize_resize(
            Linked { pending: old(pending)@, adj: strs(old(adjustments)@) },
            *ctx,
        ).adj,
{
    let rz = match &pending.swapfile_resize {
        Some(rz) => rz.duplicate(),
        None => return,
    };
    if validate_swapfile_path(rz.path.as_str()).is_err() {
        pending.swapfile_resize = None;
        adjust(adjustments, owned("Invalid resize path cleared."));
        return;
    }
    if size_out_of_range_of(rz.size_mb, ctx.mem_total_kb) {
        let size_mb = fallback_size_of(ctx.mem_total_kb);
        pending.swapfile_resize = Some(SwapfileResizeConfig { path: rz.path, size_mb });
        let mut m = owned("Resize size adjusted to ");
        push_nat(&mut m, size_mb);
        push_str(&mut m, " MiB.");
        adjust(adjustments, m);
    }
}

pub fn sanitize_remove_path(pending: &mut PendingConfig, adjustments: &mut Vec<String>)
    ensures
        final(pending)@ == spec_sanitize_remove(Linked { pending: old(pending)@, adj: strs(old(adjustments)@) }).pending,
        strs(final(adjustments)@) == spec_sanitize_remove(
            Linked { pending: old(pending)@, adj: strs(old(adjustments)@) },
        ).adj,
{
    let invalid = match &pending.remove_swapfile {
        Some(p) => validate_swapfile_path(p.as_str()).is_err(),
        None => false,
    };
    if invalid {
        pending.remove_swapfile = None;
        adjust(adjustments, owned("Invalid remove path cleared."));
    }
}

pub fn align_swap_priority_with_zram(
    pending: &mut PendingConfig,
    ctx: &LinkedOptimizeContext,
    adjustments: &mut Vec<String>,
)
    ensures
        final(pending)@ == spec_align(Linked { pending: old(pending)@, adj: strs(old(adjustments)@) }, *ctx).pending,
        strs(final(adjustments)@) == spec_align(
            Linked { pending: old(pending)@, adj: strs(old(adjustments)@) },
            *ctx,
        ).adj,
{
    let d: i32 = if ctx.has_active_zram { 100 } else { 0 };
    let zp: i32 = match &pending.zram {
        Some(z) => match z.swap_priority {
            Some(p) => p,
            None => d,
        },
        None => d,
    };
    let sf_opt = match &pending.swapfile {
        Some(sf) => Some(sf.duplicate()),
        None => None,
    };
    if let Some(sf) = sf_opt {
        if sf.priority >= zp && zp > 0 {
            let np: i32 = if zp - 1 <= OVERFLOW_SWAP_PRIORITY { zp - 1 } else { OVERFLOW_SWAP_PRIORITY };
            pending.swapfile = Some(SwapfileConfig { path: sf.path, size_mb: sf.size_mb, priority: np });
            let mut m = owned("Overflow swap priority set to ");
            push_int(&mut m, np as i64);
            push_str(&mut m, " below ZRAM.");
            adjust(adjustments, m);
        }
    }
    let z_opt = match &pending.zram {
        Some(z) => Some(z.duplicate()),
        None => None,
    };
    if let Some(z) = z_opt {
        let zpri: i32 = match z.swap_priority {
            Some(p) => p,
            None => 0,
        };
        match &pending.swapfile {
            Some(sf) => {
                if zpri <= sf.priority {
                    pending.zram = Some(zram_with_priority(&z, 100));
                    adjust(adjustments, owned("ZRAM priority raised to 100 above overflow swap."));
                }
            },
            None => {
                if ctx.has_disk_swap && zpri < 100 {
                    pending.zram = Some(zram_with_priority(&z, 100));
                    adjust(adjustments, owned("ZRAM priority raised to 100 above disk swap."));
                }
            },
        }
    }
}

pub fn apply_zram_dependents(
    anchor: LinkedAnchor,
    pending: &mut PendingConfig,
    defaults: &ZramConfig,
    ctx: &LinkedOptimizeContext,
    adjustments: &mut Vec<String>,
)
    ensures
        final(pending)@ == spec_dependents(
            anchor,
            Linked { pending: old(pending)@, adj: strs(old(adjustments)@) },
            defaults@,
            *ctx,
        ).pending,
        strs(final(adjustments)@) == spec_dependents(
            anchor,
            Linked { pending: old(pending)@, adj: strs(old(adjustments)@) },
            defaults@,
            *ctx,
        ).adj,
{
    match anchor {
        LinkedAnchor::ZramSize => {
            let z_opt = match &pending.zram {
                Some(z) => Some(z.duplicate()),
                None => None,
            };
            if let Some(z) = z_opt {
                let mut n = z;
                if n.compression_algorithm.is_none() {
                    n.compression_algorithm = crate::apply::types::copy_opt_string(&defaults.compression_algorithm);
                }
                if n.swap_priority.is_none() {
                    n.swap_priority = Some(100);
                }
                n.zram_resident_limit = crate::apply::types::copy_opt_string(&defaults.zram_resident_limit);
                pending.zram = Some(n);
            }
            fill_sysctl_defaults(pending, adjustments);
            maybe_stage_overflow(pending, ctx, adjustments);
        },
        LinkedAnchor::ZramAlgo => {
            let z_opt = match &pending.zram {
                Some(z) => Some(z.duplicate()),
                None => None,
            };
            if let Some(z) = z_opt {
                let zpri: i32 = match z.swap_priority {
                    Some(p) => p,
                    None => 0,
                };
                if (ctx.has_disk_swap || pending.swapfile.is_some()) && zpri < 100 {
                    pending.zram = Some(zram_with_priority(&z, 100));
                    adjust(adjustments, owned("ZRAM priority set to 100 above disk swap."));
                }
            }
            fill_sysctl_defaults(pending, adjustments);
            match pending.sysctl {
                Some(sc) => {
                    if sc.page_cluster != Some(0u32) {
                        pending.sysctl = Some(SysctlValues { page_cluster: Some(0), ..sc });
                        adjust(adjustments, owned("page-cluster set to 0 for zram."));
                    }
                },
                None => {},
            }
        },
        LinkedAnchor::ZramPriority => {
            align_swap_priority_with_zram(pending, ctx, adjustments);
        },
        _ => {},
    }
}

} // verus!
