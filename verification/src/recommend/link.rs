//! Linked optimization: rewriting the dependent fields when one staged
//! field changes.
use vstd::prelude::*;

use super::link_sanitize::{
    adjust, align_swap_priority_with_zram, apply_zram_dependents, ensure_zram, fill_sysctl_defaults,
    or_pri, reference_priority, sanitize_remove_path, sanitize_swapfile_create, sanitize_swapfile_resize, sanitize_sysctl,
    sanitize_zram, spec_align, spec_dependents, spec_ensure_zram, spec_fill_sysctl, spec_sanitize_create,
    spec_maybe_overflow, spec_sanitize_remove, spec_sanitize_resize, spec_sanitize_sysctl, spec_sanitize_zram, with_note,
    with_pending,
};
use super::link_types::{strs, Linked, LinkedAnchor, LinkedOptimizeContext, LinkedOptimizeResult};
use super::overflow::{has_active_disk_swap, spec_active_disk_swap};
use super::profile::{pick_profile, spec_pick_profile};
use super::scales::{mem_gb_of, spec_formula, spec_overflow_for_scale, zram_size_formula, RecommendSizeScale};
use super::types::RecommendProfile;
use crate::apply::types::{PendingConfig, PendingView, SwapfileConfigView, ZramConfig, ZramConfigView};
use crate::detect::DetectionReport;
use crate::status::StatusReport;
use crate::text::{contains_seq, is_ws, owned};
use crate::sysctl::sysctl_in_range;
use crate::validation::{is_ascii_alnum, is_unsafe_value_char, valid_device_name, valid_swapfile_config, valid_swapfile_path, valid_value, valid_zram_config};
use super::types::OVERFLOW_SWAPFILE_PATH;

verus! {

/// The context for the detected host; `hibernate_blocks_zram` is whether
/// the hibernation resume device is a zram device.
pub fn linked_optimize_context(
    detection: &DetectionReport,
    status: &StatusReport,
    hibernate_blocks_zram: bool,
) -> (c: LinkedOptimizeContext)
    ensures
        c.profile == spec_pick_profile(detection.distro.id@, status.memory.mem_total_kb),
        c.mem_total_kb == status.memory.mem_total_kb,
        c.has_active_zram == (status.zram_devices@.len() > 0),
        c.has_disk_swap == spec_active_disk_swap(status.swaps@),
        c.hibernate_blocks_zram == hibernate_blocks_zram,
        c.etc_writable == detection.etc_writable,
        c.immutable_os == detection.immutable_os,
{
    LinkedOptimizeContext {
        profile: pick_profile(detection, status),
        mem_total_kb: status.memory.mem_total_kb,
        has_active_zram: status.zram_devices.len() > 0,
        has_disk_swap: has_active_disk_swap(status),
        hibernate_blocks_zram,
        etc_writable: detection.etc_writable,
        immutable_os: detection.immutable_os,
    }
}

/// The zram device that linked optimization fills in: zram0 at priority
/// 100, the profile's default-tier formula, lz4 for constrained machines and
/// zstd otherwise, and `ram / 2` resident limit for the performance profile.
pub open spec fn shell_zram(profile: RecommendProfile, mem_total_kb: u64) -> ZramConfigView {
    ZramConfigView {
        device: "zram0"@,
        zram_size: Some(spec_formula(profile, mem_gb_of(mem_total_kb), RecommendSizeScale::Default)),
        zram_resident_limit: if profile == RecommendProfile::Performance {
            Some("ram / 2"@)
        } else {
            None
        },
        compression_algorithm: Some(
            if profile == RecommendProfile::Constrained {
                "lz4"@
            } else {
                "zstd"@
            },
        ),
        swap_priority: Some(100),
        fs_type: None,
        mount_point: None,
    }
}

pub fn recommended_zram_shell(profile: RecommendProfile, mem_total_kb: u64) -> (z: ZramConfig)
    ensures
        z@ == shell_zram(profile, mem_total_kb),
{
    let algo = match profile {
        RecommendProfile::Constrained => "lz4",
        _ => "zstd",
    };
    ZramConfig {
        device: owned("zram0"),
        zram_size: Some(zram_size_formula(profile, mem_total_kb / 1048576, RecommendSizeScale::Default)),
        zram_resident_limit: match profile {
            RecommendProfile::Performance => Some(owned("ram / 2")),
            _ => None,
        },
        compression_algorithm: Some(owned(algo)),
        swap_priority: Some(100),
        fs_type: None,
        mount_point: None,
    }
}

/// The notes on blocked staging, and the zram device dropped when
/// hibernation resumes from zram.
pub open spec fn spec_prelude(l: Linked, ctx: LinkedOptimizeContext) -> Linked {
    let l1 = if ctx.immutable_os || !ctx.etc_writable {
        with_note(
            l,
            "Staging is blocked on this host (immutable OS or read-only /etc); forms were still normalized locally."@,
        )
    } else {
        l
    };
    if ctx.hibernate_blocks_zram && l1.pending.zram is Some {
        with_note(
            with_pending(l1, PendingView { zram: None, ..l1.pending }),
            "Hibernation resume uses zram; zram staging cleared (use disk swap for resume)."@,
        )
    } else {
        l1
    }
}

/// A swappiness of 100 or more calls for a zram device at priority 100.
pub open spec fn spec_sysctl_anchor(l: Linked, d: ZramConfigView) -> Linked {
    let l1 = spec_sanitize_sysctl(l);
    let l2 = if l1.pending.sysctl matches Some(sc) && sc.swappiness matches Some(s) && s >= 100 {
        let l3 = spec_ensure_zram(l1, d);
        match l3.pending.zram {
            Some(z) => if or_pri(z.swap_priority, 0) < 100 {
                with_note(
                    with_pending(
                        l3,
                        PendingView { zram: Some(ZramConfigView { swap_priority: Some(100), ..z }), ..l3.pending },
                    ),
                    "ZRAM priority set to 100 for zram-oriented swappiness."@,
                )
            } else {
                l3
            },
            None => l3,
        }
    } else {
        l1
    };
    spec_fill_sysctl(l2)
}

/// What the edited field implies.
pub open spec fn spec_anchor_step(anchor: LinkedAnchor, l: Linked, d: ZramConfigView, ctx: LinkedOptimizeContext) -> Linked {
    match anchor {
        LinkedAnchor::ZramSize | LinkedAnchor::ZramAlgo | LinkedAnchor::ZramPriority => spec_dependents(
            anchor,
            spec_sanitize_zram(anchor, spec_ensure_zram(l, d), d),
            d,
            ctx,
        ),
        LinkedAnchor::Sysctl => spec_sysctl_anchor(l, d),
        LinkedAnchor::SwapfileCreate => spec_align(spec_sanitize_create(l, ctx), ctx),
        LinkedAnchor::SwapfileResize => spec_sanitize_resize(l, ctx),
        LinkedAnchor::SwapfileRemove => {
            let l1 = if l.pending.remove_swapfile is Some {
                with_note(
                    with_pending(l, PendingView { swapfile: None, swapfile_resize: None, ..l.pending }),
                    "Cleared create/resize siblings for swapfile remove."@,
                )
            } else {
                l
            };
            spec_sanitize_remove(l1)
        },
    }
}

/// The closing pass over every staged field.
pub open spec fn spec_final_pass(l: Linked, d: ZramConfigView, ctx: LinkedOptimizeContext) -> Linked {
    spec_sanitize_resize(
        spec_sanitize_create(spec_sanitize_sysctl(spec_sanitize_zram(LinkedAnchor::ZramSize, l, d)), ctx),
        ctx,
    )
}

/// Linked optimization of a staged configuration after an edit of `anchor`.
pub open spec fn spec_optimize(anchor: LinkedAnchor, seed: PendingView, ctx: LinkedOptimizeContext) -> Linked {
    let d = shell_zram(ctx.profile, ctx.mem_total_kb);
    spec_final_pass(
        spec_anchor_step(anchor, spec_prelude(Linked { pending: seed, adj: Seq::empty() }, ctx), d, ctx),
        d,
        ctx,
    )
}

fn sysctl_anchor(pending: &mut PendingConfig, defaults: &ZramConfig, adjustments: &mut Vec<String>)
    ensures
        final(pending)@ == spec_sysctl_anchor(Linked { pending: old(pending)@, adj: strs(old(adjustments)@) }, defaults@).pending,
        strs(final(adjustments)@) == spec_sysctl_anchor(
            Linked { pending: old(pending)@, adj: strs(old(adjustments)@) },
            defaults@,
        ).adj,
{
    sanitize_sysctl(pending, adjustments);
    let high_swappiness = match pending.sysctl {
        Some(sc) => match sc.swappiness {
            Some(s) => s >= 100,
            None => false,
        },
        None => false,
    };
    if high_swappiness {
        ensure_zram(pending, defaults, adjustments);
        let z_opt = match &pending.zram {
            Some(z) => Some(z.duplicate()),
            None => None,
        };
        if let Some(z) = z_opt {
            let zpri: i32 = match z.swap_priority {
                Some(p) => p,
                None => 0,
            };
            if zpri < 100 {
                let mut n = z;
                n.swap_priority = Some(100);
                pending.zram = Some(n);
                adjust(adjustments, owned("ZRAM priority set to 100 for zram-oriented swappiness."));
            }
        }
    }
    fill_sysctl_defaults(pending, adjustments);
}

/// Rewrites the staged configuration after an edit of `anchor`: the edited
/// field is kept where valid, its dependents follow, and every staged field
/// is brought back into its valid range. Returns the configuration with the
/// adjustments made, in order.
pub fn optimize_linked(anchor: LinkedAnchor, seed: PendingConfig, ctx: &LinkedOptimizeContext) -> (r: LinkedOptimizeResult)
    ensures
        r.pending@ == spec_optimize(anchor, seed@, *ctx).pending,
        strs(r.adjustments@) == spec_optimize(anchor, seed@, *ctx).adj,
{
    let mut pending = seed;
    let mut adjustments: Vec<String> = Vec::new();
    assert(strs(adjustments@) =~= Seq::<Seq<char>>::empty());
    let defaults = recommended_zram_shell(ctx.profile, ctx.mem_total_kb);
    if ctx.immutable_os || !ctx.etc_writable {
        adjust(
            &mut adjustments,
            owned("Staging is blocked on this host (immutable OS or read-only /etc); forms were still normalized locally."),
        );
    }
    if ctx.hibernate_blocks_zram && pending.zram.is_some() {
        pending.zram = None;
        adjust(&mut adjustments, owned("Hibernation resume uses zram; zram staging cleared (use disk swap for resume)."));
    }
    match anchor {
        LinkedAnchor::ZramSize | LinkedAnchor::ZramAlgo | LinkedAnchor::ZramPriority => {
            ensure_zram(&mut pending, &defaults, &mut adjustments);
            sanitize_zram(anchor, &mut pending, &defaults, &mut adjustments);
            apply_zram_dependents(anchor, &mut pending, &defaults, ctx, &mut adjustments);
        },
        LinkedAnchor::Sysctl => {
            sysctl_anchor(&mut pending, &defaults, &mut adjustments);
        },
        LinkedAnchor::SwapfileCreate => {
            sanitize_swapfile_create(&mut pending, ctx, &mut adjustments);
            align_swap_priority_with_zram(&mut pending, ctx, &mut adjustments);
        },
        LinkedAnchor::SwapfileResize => {
            sanitize_swapfile_resize(&mut pending, ctx, &mut adjustments);
        },
        LinkedAnchor::SwapfileRemove => {
            if pending.remove_swapfile.is_some() {
                pending.swapfile = None;
                pending.swapfile_resize = None;
                adjust(&mut adjustments, owned("Cleared create/resize siblings for swapfile remove."));
            }
            sanitize_remove_path(&mut pending, &mut adjustments);
        },
    }
    sanitize_zram(LinkedAnchor::ZramSize, &mut pending, &defaults, &mut adjustments);
    sanitize_sysctl(&mut pending, &mut adjustments);
    sanitize_swapfile_create(&mut pending, ctx, &mut adjustments);
    sanitize_swapfile_resize(&mut pending, ctx, &mut adjustments);
    LinkedOptimizeResult { pending, adjustments }
}

// ---------------------------------------------------------------------------
// Laws of linked optimization
// ---------------------------------------------------------------------------

proof fn lemma_values_valid()
    ensures
        valid_value("ram"@),
        valid_value("min(ram, 4096)"@),
        valid_value("min(ram / 2, 8192)"@),
        valid_value("min(ram / 2, 4096)"@),
        valid_value("ram / 2"@),
        valid_value("lz4"@),
        valid_value("zstd"@),
        valid_device_name("zram0"@),
{
    reveal_strlit("ram");
    reveal_strlit("min(ram, 4096)");
    reveal_strlit("min(ram / 2, 8192)");
    reveal_strlit("min(ram / 2, 4096)");
    reveal_strlit("ram / 2");
    reveal_strlit("lz4");
    reveal_strlit("zstd");
    reveal_strlit("zram0");
    let a = "min(ram, 4096)"@;
    assert forall|i: int| 0 <= i < a.len() implies !is_unsafe_value_char(#[trigger] a[i]) by {
        assert(0 <= i < 14);
    }
    let b = "min(ram / 2, 8192)"@;
    assert forall|i: int| 0 <= i < b.len() implies !is_unsafe_value_char(#[trigger] b[i]) by {
        assert(0 <= i < 18);
    }
    let c = "min(ram / 2, 4096)"@;
    assert forall|i: int| 0 <= i < c.len() implies !is_unsafe_value_char(#[trigger] c[i]) by {
        assert(0 <= i < 18);
    }
    let e = "ram / 2"@;
    assert forall|i: int| 0 <= i < e.len() implies !is_unsafe_value_char(#[trigger] e[i]) by {
        assert(0 <= i < 7);
    }
    let f = "ram"@;
    assert forall|i: int| 0 <= i < f.len() implies !is_unsafe_value_char(#[trigger] f[i]) by {
        assert(0 <= i < 3);
    }
    let g = "lz4"@;
    assert forall|i: int| 0 <= i < g.len() implies !is_unsafe_value_char(#[trigger] g[i]) by {
        assert(0 <= i < 3);
    }
    let h = "zstd"@;
    assert forall|i: int| 0 <= i < h.len() implies !is_unsafe_value_char(#[trigger] h[i]) by {
        assert(0 <= i < 4);
    }
    let z = "zram0"@;
    assert forall|i: int| 0 <= i < z.len() implies is_ascii_alnum(#[trigger] z[i]) || z[i] == '-' || z[i] == '_' by {
        assert(0 <= i < 5);
    }
}

/// The zram device that linked optimization fills in passes validation.
pub proof fn lemma_shell_valid(profile: RecommendProfile, mem_total_kb: u64)
    ensures
        valid_zram_config(shell_zram(profile, mem_total_kb)),
{
    lemma_values_valid();
}

/// The overflow swapfile path passes validation.
pub proof fn lemma_overflow_path_valid()
    ensures
        valid_swapfile_path(OVERFLOW_SWAPFILE_PATH@),
{
    reveal_strlit("/swap/swapfile");
    reveal_strlit("/../");
    reveal_strlit("/..");
    reveal_strlit("/dev/");
    reveal_strlit("/proc/");
    reveal_strlit("/sys/");
    let p = OVERFLOW_SWAPFILE_PATH@;
    assert forall|i: int| 0 <= i < p.len() implies !is_ws(#[trigger] p[i]) && (p[i] as u32) >= 0x20 && (p[i] as u32)
        != 0x7F by {
        assert(0 <= i < 14);
    }
    assert forall|i: int| 0 <= i < p.len() implies p[i] != '.' by {
        assert(0 <= i < 14);
    }
    if contains_seq(p, "/../"@) {
        let i = choose|i: int| 0 <= i && i + 4 <= p.len() && #[trigger] p.subrange(i, i + 4) == "/../"@;
        assert(p.subrange(i, i + 4)[1] == p[i + 1]);
    }
    assert(p.subrange(p.len() - 3, p.len() as int)[2] == p[13]);
    assert(p.subrange(0, 5)[1] == p[1]);
    assert(p.subrange(0, 6)[1] == p[1]);
    assert(p.subrange(0, 5)[2] == p[2]);
}

proof fn lemma_sanitize_zram_valid(l: Linked, d: ZramConfigView)
    requires
        valid_zram_config(d),
    ensures
        ({
            let r = spec_sanitize_zram(LinkedAnchor::ZramSize, l, d);
            &&& r.pending.zram is Some ==> valid_zram_config(r.pending.zram->0)
            &&& r.pending.sysctl == l.pending.sysctl
            &&& r.pending.swapfile == l.pending.swapfile
            &&& r.pending.swapfile_resize == l.pending.swapfile_resize
        }),
{
}

proof fn lemma_sanitize_create_valid(l: Linked, ctx: LinkedOptimizeContext)
    ensures
        ({
            let r = spec_sanitize_create(l, ctx);
            &&& r.pending.swapfile is Some ==> valid_swapfile_config(r.pending.swapfile->0)
            &&& (r.pending.swapfile is Some && ctx.mem_total_kb >= 1024) ==> r.pending.swapfile->0.size_mb
                <= spec_overflow_for_scale(ctx.mem_total_kb, RecommendSizeScale::High)
            &&& r.pending.zram == l.pending.zram
            &&& r.pending.sysctl == l.pending.sysctl
            &&& r.pending.swapfile_resize == l.pending.swapfile_resize
        }),
{
    lemma_overflow_path_valid();
    super::scales::lemma_overflow_tiers_ordered(ctx.mem_total_kb);
}

/// Whatever was staged and whichever field was edited, linked optimization
/// returns a configuration whose staged zram device, sysctl values, swapfile
/// and resize all pass validation.
pub proof fn lemma_optimize_validates(anchor: LinkedAnchor, seed: PendingView, ctx: LinkedOptimizeContext)
    ensures
        ({
            let p = spec_optimize(anchor, seed, ctx).pending;
            &&& p.zram is Some ==> valid_zram_config(p.zram->0)
            &&& p.sysctl is Some ==> sysctl_in_range(p.sysctl->0)
            &&& p.swapfile is Some ==> valid_swapfile_config(p.swapfile->0)
            &&& p.swapfile_resize is Some ==> valid_swapfile_path(p.swapfile_resize->0.path)
                && p.swapfile_resize->0.size_mb > 0
        }),
{
    let d = shell_zram(ctx.profile, ctx.mem_total_kb);
    lemma_shell_valid(ctx.profile, ctx.mem_total_kb);
    let l0 = spec_anchor_step(anchor, spec_prelude(Linked { pending: seed, adj: Seq::empty() }, ctx), d, ctx);
    let l1 = spec_sanitize_zram(LinkedAnchor::ZramSize, l0, d);
    lemma_sanitize_zram_valid(l0, d);
    let l2 = spec_sanitize_sysctl(l1);
    let l3 = spec_sanitize_create(l2, ctx);
    lemma_sanitize_create_valid(l2, ctx);
    let l4 = spec_sanitize_resize(l3, ctx);
}

/// On a machine with at least 1 MiB of RAM, linked optimization returns a
/// staged swapfile of 1 MiB up to the high tier's size with a priority
/// between -1 and 32767, and a staged zram priority between -1 and 32767.
pub proof fn lemma_optimize_bounds(anchor: LinkedAnchor, seed: PendingView, ctx: LinkedOptimizeContext)
    requires
        ctx.mem_total_kb >= 1024,
    ensures
        ({
            let p = spec_optimize(anchor, seed, ctx).pending;
            &&& p.swapfile matches Some(sf) ==> 1 <= sf.size_mb <= spec_overflow_for_scale(
                ctx.mem_total_kb,
                RecommendSizeScale::High,
            ) && -1 <= sf.priority <= 32767
            &&& p.zram matches Some(z) ==> (z.swap_priority matches Some(zp) ==> -1 <= zp <= 32767)
        }),
{
    let d = shell_zram(ctx.profile, ctx.mem_total_kb);
    lemma_optimize_validates(anchor, seed, ctx);
    let l0 = spec_anchor_step(anchor, spec_prelude(Linked { pending: seed, adj: Seq::empty() }, ctx), d, ctx);
    let l1 = spec_sanitize_zram(LinkedAnchor::ZramSize, l0, d);
    let l2 = spec_sanitize_sysctl(l1);
    lemma_sanitize_create_valid(l2, ctx);
}

proof fn lemma_zram_steps_keep_swapfile(anchor: LinkedAnchor, l: Linked, d: ZramConfigView, ctx: LinkedOptimizeContext)
    ensures
        spec_prelude(l, ctx).pending.swapfile == l.pending.swapfile,
        spec_prelude(l, ctx).pending.remove_swapfile == l.pending.remove_swapfile,
        spec_ensure_zram(l, d).pending.swapfile == l.pending.swapfile,
        spec_ensure_zram(l, d).pending.remove_swapfile == l.pending.remove_swapfile,
        spec_sanitize_zram(anchor, l, d).pending.swapfile == l.pending.swapfile,
        spec_sanitize_zram(anchor, l, d).pending.remove_swapfile == l.pending.remove_swapfile,
        spec_fill_sysctl(l).pending.swapfile == l.pending.swapfile,
        spec_fill_sysctl(l).pending.remove_swapfile == l.pending.remove_swapfile,
        spec_sanitize_sysctl(l).pending.swapfile == l.pending.swapfile,
        spec_sanitize_resize(l, ctx).pending.swapfile == l.pending.swapfile,
        spec_sysctl_anchor(l, d).pending.swapfile == l.pending.swapfile,
        l.pending.swapfile is None ==> spec_align(l, ctx).pending.swapfile is None,
        l.pending.swapfile is None ==> spec_sanitize_create(l, ctx).pending.swapfile is None,
{
}

proof fn lemma_dependents_no_swapfile(anchor: LinkedAnchor, l: Linked, d: ZramConfigView, ctx: LinkedOptimizeContext)
    requires
        ctx.has_disk_swap,
        l.pending.swapfile is None,
    ensures
        spec_dependents(anchor, l, d, ctx).pending.swapfile is None,
{
    match anchor {
        LinkedAnchor::ZramSize => {
            let l1 = match l.pending.zram {
                Some(z) => with_pending(
                    l,
                    PendingView {
                        zram: Some(
                            ZramConfigView {
                                compression_algorithm: if z.compression_algorithm is None {
                                    d.compression_algorithm
                                } else {
                                    z.compression_algorithm
                                },
                                swap_priority: if z.swap_priority is None { Some(100i32) } else { z.swap_priority },
                                zram_resident_limit: d.zram_resident_limit,
                                ..z
                            },
                        ),
                        ..l.pending
                    },
                ),
                None => l,
            };
            lemma_zram_steps_keep_swapfile(anchor, l1, d, ctx);
        },
        LinkedAnchor::ZramAlgo => {
        },
        LinkedAnchor::ZramPriority => {
            lemma_zram_steps_keep_swapfile(anchor, l, d, ctx);
        },
        _ => {},
    }
}

/// Next to disk swap, linked optimization never stages a swapfile that the
/// seed did not stage.
pub proof fn lemma_no_overflow_next_to_disk_swap(anchor: LinkedAnchor, seed: PendingView, ctx: LinkedOptimizeContext)
    requires
        ctx.has_disk_swap,
        seed.swapfile is None,
    ensures
        spec_optimize(anchor, seed, ctx).pending.swapfile is None,
{
    let d = shell_zram(ctx.profile, ctx.mem_total_kb);
    let l = Linked { pending: seed, adj: Seq::empty() };
    let p = spec_prelude(l, ctx);
    lemma_zram_steps_keep_swapfile(anchor, l, d, ctx);
    let l0 = spec_anchor_step(anchor, p, d, ctx);
    match anchor {
        LinkedAnchor::ZramSize | LinkedAnchor::ZramAlgo | LinkedAnchor::ZramPriority => {
            let e = spec_ensure_zram(p, d);
            lemma_zram_steps_keep_swapfile(anchor, p, d, ctx);
            lemma_zram_steps_keep_swapfile(anchor, e, d, ctx);
            lemma_dependents_no_swapfile(anchor, spec_sanitize_zram(anchor, e, d), d, ctx);
        },
        LinkedAnchor::Sysctl => {
            lemma_zram_steps_keep_swapfile(anchor, p, d, ctx);
        },
        LinkedAnchor::SwapfileCreate => {
            lemma_zram_steps_keep_swapfile(anchor, p, d, ctx);
            lemma_zram_steps_keep_swapfile(anchor, spec_sanitize_create(p, ctx), d, ctx);
        },
        LinkedAnchor::SwapfileResize => {
            lemma_zram_steps_keep_swapfile(anchor, p, d, ctx);
        },
        LinkedAnchor::SwapfileRemove => {},
    }
    assert(l0.pending.swapfile is None);
    let f1 = spec_sanitize_zram(LinkedAnchor::ZramSize, l0, d);
    lemma_zram_steps_keep_swapfile(LinkedAnchor::ZramSize, l0, d, ctx);
    let f2 = spec_sanitize_sysctl(f1);
    lemma_zram_steps_keep_swapfile(LinkedAnchor::ZramSize, f1, d, ctx);
    let f3 = spec_sanitize_create(f2, ctx);
    lemma_zram_steps_keep_swapfile(LinkedAnchor::ZramSize, f2, d, ctx);
    lemma_zram_steps_keep_swapfile(LinkedAnchor::ZramSize, f3, d, ctx);
}

/// Without disk swap, editing the zram size of a seed that stages no
/// swapfile and no removal stages the overflow swapfile /swap/swapfile at
/// the default tier's size and priority 10 (on a machine with at least
/// 1 MiB of RAM).
pub proof fn lemma_overflow_without_disk_swap(seed: PendingView, ctx: LinkedOptimizeContext)
    requires
        !ctx.has_disk_swap,
        seed.swapfile is None,
        seed.remove_swapfile is None,
        ctx.mem_total_kb >= 1024,
    ensures
        spec_optimize(LinkedAnchor::ZramSize, seed, ctx).pending.swapfile == Some(
            SwapfileConfigView {
                path: OVERFLOW_SWAPFILE_PATH@,
                size_mb: spec_overflow_for_scale(ctx.mem_total_kb, RecommendSizeScale::Default),
                priority: 10,
            },
        ),
{
    let anchor = LinkedAnchor::ZramSize;
    let d = shell_zram(ctx.profile, ctx.mem_total_kb);
    let l = Linked { pending: seed, adj: Seq::empty() };
    let p = spec_prelude(l, ctx);
    lemma_zram_steps_keep_swapfile(anchor, l, d, ctx);
    let e = spec_ensure_zram(p, d);
    lemma_zram_steps_keep_swapfile(anchor, p, d, ctx);
    let sz = spec_sanitize_zram(anchor, e, d);
    lemma_zram_steps_keep_swapfile(anchor, e, d, ctx);
    let l1 = match sz.pending.zram {
        Some(z) => with_pending(
            sz,
            PendingView {
                zram: Some(
                    ZramConfigView {
                        compression_algorithm: if z.compression_algorithm is None {
                            d.compression_algorithm
                        } else {
                            z.compression_algorithm
                        },
                        swap_priority: if z.swap_priority is None { Some(100i32) } else { z.swap_priority },
                        zram_resident_limit: d.zram_resident_limit,
                        ..z
                    },
                ),
                ..sz.pending
            },
        ),
        None => sz,
    };
    let f = spec_fill_sysctl(l1);
    lemma_zram_steps_keep_swapfile(anchor, l1, d, ctx);
    let m = spec_maybe_overflow(f, ctx);
    let size = spec_overflow_for_scale(ctx.mem_total_kb, RecommendSizeScale::Default);
    assert(size >= 1);
    let sf = SwapfileConfigView { path: OVERFLOW_SWAPFILE_PATH@, size_mb: size, priority: 10 };
    assert(m.pending.swapfile == Some(sf));
    let l0 = spec_anchor_step(anchor, p, d, ctx);
    assert(l0 == m);
    lemma_overflow_path_valid();
    super::scales::lemma_overflow_tiers_ordered(ctx.mem_total_kb);
    let f1 = spec_sanitize_zram(LinkedAnchor::ZramSize, l0, d);
    lemma_zram_steps_keep_swapfile(LinkedAnchor::ZramSize, l0, d, ctx);
    let f2 = spec_sanitize_sysctl(f1);
    lemma_zram_steps_keep_swapfile(LinkedAnchor::ZramSize, f1, d, ctx);
    let f3 = spec_sanitize_create(f2, ctx);
    assert(f3.pending.swapfile == Some(sf));
    lemma_zram_steps_keep_swapfile(LinkedAnchor::ZramSize, f3, d, ctx);
}

/// After aligning, a staged zram device with a priority ranks above a staged
/// swapfile, unless the zram priority starts at or below 0 and the swapfile
/// priority at or above 100 (then zram rises only to 100).
pub proof fn lemma_align_orders_priorities(l: Linked, ctx: LinkedOptimizeContext)
    requires
        l.pending.zram is Some,
        l.pending.swapfile is Some,
        reference_priority(l.pending, ctx) > 0 || l.pending.swapfile->0.priority < 100,
    ensures
        ({
            let r = spec_align(l, ctx).pending;
            &&& r.zram is Some && r.swapfile is Some
            &&& r.zram->0.swap_priority matches Some(zp) ==> zp > r.swapfile->0.priority
        }),
{
}

} // verus!
