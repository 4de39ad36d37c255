//! Staging: how a partial change is merged into the pending configuration.
use vstd::prelude::*;

use super::types::{
    copy_string, empty_pending, PendingConfig, PendingView,
};
use crate::sysctl::{empty_sysctl, spec_overlay, SysctlValues};
use crate::text::push_str;

verus! {

/// `base` joined with the relative path `rel` (`Path::join` for a relative `rel`).
pub open spec fn join_path(base: Seq<char>, rel: Seq<char>) -> Seq<char> {
    if base.len() == 0 {
        rel
    } else if base.last() == '/' {
        base + rel
    } else {
        base + "/"@ + rel
    }
}

/// `base` joined with the relative path `rel`.
pub fn join(base: &str, rel: &str) -> (p: String)
    ensures
        p@ == join_path(base@, rel@),
{
    let b = crate::text::chars_of(base);
    let mut p = String::new();
    push_str(&mut p, base);
    if b.len() > 0 && b[b.len() - 1] != '/' {
        push_str(&mut p, "/");
    }
    push_str(&mut p, rel);
    assert(p@ =~= join_path(base@, rel@));
    p
}

/// Path to the last privileged-helper error, under the data directory.
pub fn last_error_path(data_dir: &str) -> (p: String)
    ensures
        p@ == join_path(data_dir@, "last_error"@),
{
    join(data_dir, "last_error")
}

/// Path of pending.json under the data directory.
pub fn pending_path(data_dir: &str) -> (p: String)
    ensures
        p@ == join_path(data_dir@, "pending.json"@),
{
    join(data_dir, "pending.json")
}

/// `existing` (or nothing) with every knob set in `incoming` taking its value.
pub open spec fn spec_merge_sysctl(existing: Option<SysctlValues>, incoming: SysctlValues) -> SysctlValues {
    spec_overlay(
        match existing {
            Some(e) => e,
            None => empty_sysctl(),
        },
        incoming,
    )
}

/// Merge of two sysctl sets: knobs set in `incoming` override `existing`.
pub fn merge_sysctl(existing: Option<&SysctlValues>, incoming: &SysctlValues) -> (r: SysctlValues)
    ensures
        r == spec_merge_sysctl(
            match existing {
                Some(e) => Some(*e),
                None => None,
            },
            *incoming,
        ),
{
    let base = match existing {
        Some(e) => *e,
        None => SysctlValues {
            swappiness: None,
            watermark_boost_factor: None,
            watermark_scale_factor: None,
            page_cluster: None,
        },
    };
    crate::sysctl::merge_sysctl_overlay(base, incoming)
}

/// The staged configuration after merging `partial` into `c`:
/// disabling zram drops a staged zram config and a new zram config cancels a
/// disable; create, resize and remove of a swapfile replace one another; sysctl
/// knobs merge knob by knob.
pub open spec fn spec_merge(c: PendingView, p: PendingView) -> PendingView {
    let c1 = if p.disable_zram {
        PendingView { disable_zram: true, zram: None, ..c }
    } else {
        c
    };
    let c2 = if p.zram is Some {
        PendingView { disable_zram: false, zram: p.zram, ..c1 }
    } else {
        c1
    };
    let c3 = if p.swapfile is Some {
        PendingView { swapfile: p.swapfile, swapfile_resize: None, remove_swapfile: None, ..c2 }
    } else {
        c2
    };
    let c4 = if p.swapfile_resize is Some {
        PendingView { swapfile_resize: p.swapfile_resize, swapfile: None, remove_swapfile: None, ..c3 }
    } else {
        c3
    };
    let c5 = if p.remove_swapfile is Some {
        PendingView { remove_swapfile: p.remove_swapfile, swapfile: None, swapfile_resize: None, ..c4 }
    } else {
        c4
    };
    if p.sysctl is Some {
        PendingView { sysctl: Some(spec_merge_sysctl(c5.sysctl, p.sysctl->0)), ..c5 }
    } else {
        c5
    }
}

/// Merges `partial` into `current` in place.
pub fn merge_pending(current: &mut PendingConfig, partial: &PendingConfig)
    ensures
        final(current)@ == spec_merge(old(current)@, partial@),
{
    if partial.disable_zram {
        current.disable_zram = true;
        current.zram = None;
    }
    if let Some(zram) = &partial.zram {
        current.disable_zram = false;
        current.zram = Some(zram.duplicate());
    }
    if let Some(swapfile) = &partial.swapfile {
        current.swapfile = Some(swapfile.duplicate());
        current.swapfile_resize = None;
        current.remove_swapfile = None;
    }
    if let Some(resize) = &partial.swapfile_resize {
        current.swapfile_resize = Some(resize.duplicate());
        current.swapfile = None;
        current.remove_swapfile = None;
    }
    if let Some(path) = &partial.remove_swapfile {
        current.remove_swapfile = Some(copy_string(path));
        current.swapfile = None;
        current.swapfile_resize = None;
    }
    if let Some(sysctl) = &partial.sysctl {
        let merged = merge_sysctl(current.sysctl.as_ref(), sysctl);
        current.sysctl = Some(merged);
    }
}

/// Nothing is staged at all.
pub open spec fn spec_is_empty(p: PendingView) -> bool {
    &&& !p.disable_zram
    &&& p.zram is None
    &&& p.swapfile is None
    &&& p.swapfile_resize is None
    &&& p.remove_swapfile is None
    &&& p.sysctl is None
}

pub fn pending_is_empty(config: &PendingConfig) -> (b: bool)
    ensures
        b == spec_is_empty(config@),
{
    !config.disable_zram && config.zram.is_none() && config.swapfile.is_none()
        && config.swapfile_resize.is_none() && config.remove_swapfile.is_none()
        && config.sysctl.is_none()
}

/// The pending configuration to store after staging `partial` on top of what
/// is stored now (`None` when nothing is stored).
pub fn stage(current: Option<PendingConfig>, partial: &PendingConfig) -> (r: PendingConfig)
    ensures
        r@ == spec_merge(
            match current {
                Some(c) => c@,
                None => empty_pending(),
            },
            partial@,
        ),
{
    let mut c = match current {
        Some(c) => c,
        None => PendingConfig::default(),
    };
    merge_pending(&mut c, partial);
    c
}

// ---------------------------------------------------------------------------
// Laws of staging
// ---------------------------------------------------------------------------

/// At most one swapfile operation (create, resize or remove) is staged.
pub open spec fn single_swapfile_action(p: PendingView) -> bool {
    &&& (p.swapfile is Some ==> p.swapfile_resize is None && p.remove_swapfile is None)
    &&& (p.swapfile_resize is Some ==> p.remove_swapfile is None)
}

/// A zram config and a zram disable are never staged together.
pub open spec fn zram_choice_consistent(p: PendingView) -> bool {
    !(p.disable_zram && p.zram is Some)
}

/// Staging keeps at most one swapfile operation and never stages a zram
/// config together with a zram disable, whatever the partial change holds,
/// provided the partial itself is consistent.
pub proof fn lemma_merge_keeps_invariants(c: PendingView, p: PendingView)
    requires
        single_swapfile_action(c),
        zram_choice_consistent(c),
    ensures
        single_swapfile_action(spec_merge(c, p)),
        zram_choice_consistent(spec_merge(c, p)),
{
}

/// Staging the same partial change twice has the effect of staging it once.
pub proof fn lemma_merge_idempotent(c: PendingView, p: PendingView)
    ensures
        spec_merge(spec_merge(c, p), p) == spec_merge(c, p),
{
}

/// Staging an empty change leaves the pending configuration as it is.
pub proof fn lemma_merge_empty_identity(c: PendingView)
    ensures
        spec_merge(c, empty_pending()) == c,
{
}

/// After staging, every operation that the partial change names is staged as
/// given, except that the swapfile operations later in the order create,
/// resize, remove win over earlier ones.
pub proof fn lemma_merge_takes_partial(c: PendingView, p: PendingView)
    ensures
        p.zram is Some ==> spec_merge(c, p).zram == p.zram && !spec_merge(c, p).disable_zram,
        p.disable_zram && p.zram is None ==> spec_merge(c, p).disable_zram && spec_merge(
            c,
            p,
        ).zram is None,
        p.remove_swapfile is Some ==> spec_merge(c, p).remove_swapfile == p.remove_swapfile,
        p.sysctl is None ==> spec_merge(c, p).sysctl == c.sysctl,
{
}

} // verus!
