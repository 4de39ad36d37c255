//! Deciding whether the current zram and sysctl settings need restaging.
use vstd::prelude::*;

use crate::apply::types::{copy_opt_string, sv, ZramConfig, ZramConfigView};
use crate::sysctl::SysctlValues;
use crate::text::{chars_of, chars_eq, eq_str, is_ws, is_ws_char, str_lowercase, string_of, to_lowercase};

verus! {

/// `s` without any whitespace character.
pub open spec fn drop_ws(s: Seq<char>) -> Seq<char>
    decreases s.len(),
{
    if s.len() == 0 {
        s
    } else if is_ws(s.last()) {
        drop_ws(s.drop_last())
    } else {
        drop_ws(s.drop_last()).push(s.last())
    }
}

/// A size formula compared without whitespace and case.
pub open spec fn normalize(f: Seq<char>) -> Seq<char> {
    str_lowercase(drop_ws(f))
}

pub open spec fn min_u64(a: u64, b: u64) -> u64 {
    if a <= b {
        a
    } else {
        b
    }
}

/// The common normalized zram-generator formulas, evaluated in MiB.
pub open spec fn spec_eval_normalized(f: Seq<char>, ram_mb: u64) -> Option<u64> {
    if f == "ram"@ {
        Some(ram_mb)
    } else if f == "min(ram,8192)"@ {
        Some(min_u64(ram_mb, 8192))
    } else if f == "min(ram,4096)"@ {
        Some(min_u64(ram_mb, 4096))
    } else if f == "min(ram/2,8192)"@ {
        Some(min_u64(ram_mb / 2, 8192))
    } else if f == "min(ram/2,4096)"@ {
        Some(min_u64(ram_mb / 2, 4096))
    } else {
        None
    }
}

pub open spec fn spec_eval_zram_size_mb(formula: Seq<char>, ram_mb: u64) -> Option<u64> {
    spec_eval_normalized(normalize(formula), ram_mb)
}

fn drop_ws_of(s: &[char]) -> (r: Vec<char>)
    ensures
        r@ == drop_ws(s@),
{
    let mut r: Vec<char> = Vec::new();
    let mut i: usize = 0;
    while i < s.len()
        invariant
            i <= s.len(),
            r@ == drop_ws(s@.subrange(0, i as int)),
        decreases s.len() - i,
    {
        let ghost pre = s@.subrange(0, (i + 1) as int);
        assert(pre.drop_last() == s@.subrange(0, i as int));
        if !is_ws_char(s[i]) {
            r.push(s[i]);
        }
        i = i + 1;
    }
    assert(s@.subrange(0, s.len() as int) == s@);
    r
}

/// The formula without whitespace, lowercased.
pub fn normalize_size_formula(formula: &str) -> (r: Vec<char>)
    ensures
        r@ == normalize(formula@),
{
    let c = chars_of(formula);
    let d = drop_ws_of(&c);
    let s = string_of(&d);
    let l = to_lowercase(s.as_str());
    chars_of(l.as_str())
}

/// Evaluates an already normalized formula (see [`eval_zram_size_mb`]).
pub fn eval_normalized_size_mb(f: &[char], ram_mb: u64) -> (r: Option<u64>)
    ensures
        r == spec_eval_normalized(f@, ram_mb),
{
    if eq_str(f, "ram") {
        Some(ram_mb)
    } else if eq_str(f, "min(ram,8192)") {
        Some(if ram_mb <= 8192 { ram_mb } else { 8192 })
    } else if eq_str(f, "min(ram,4096)") {
        Some(if ram_mb <= 4096 { ram_mb } else { 4096 })
    } else if eq_str(f, "min(ram/2,8192)") {
        Some(if ram_mb / 2 <= 8192 { ram_mb / 2 } else { 8192 })
    } else if eq_str(f, "min(ram/2,4096)") {
        Some(if ram_mb / 2 <= 4096 { ram_mb / 2 } else { 4096 })
    } else {
        None
    }
}

/// Evaluates the common zram-generator size formulas to MiB for a given RAM
/// size; `None` for any other formula.
pub fn eval_zram_size_mb(formula: &str, ram_mb: u64) -> (r: Option<u64>)
    ensures
        r == spec_eval_zram_size_mb(formula@, ram_mb),
{
    let f = normalize_size_formula(formula);
    eval_normalized_size_mb(&f, ram_mb)
}

/// The configured size should be replaced: it is missing, or differs from the
/// recommended formula and is not known to give at least as much.
pub open spec fn spec_size_needs_update(current: Option<Seq<char>>, recommended: Seq<char>, ram_mb: u64) -> bool {
    match current {
        None => true,
        Some(c) => if normalize(c) == normalize(recommended) {
            false
        } else {
            !match (spec_eval_zram_size_mb(c, ram_mb), spec_eval_zram_size_mb(recommended, ram_mb)) {
                (Some(x), Some(y)) => x >= y,
                _ => false,
            }
        },
    }
}

pub fn zram_size_needs_update(current: Option<&str>, recommended: &str, ram_mb: u64) -> (r: bool)
    ensures
        r == spec_size_needs_update(
            match current {
                Some(c) => Some(c@),
                None => None,
            },
            recommended@,
            ram_mb,
        ),
{
    let current = match current {
        Some(c) => c,
        None => return true,
    };
    let nc = normalize_size_formula(current);
    let nr = normalize_size_formula(recommended);
    if chars_eq(&nc, &nr) {
        return false;
    }
    match (eval_normalized_size_mb(&nc, ram_mb), eval_normalized_size_mb(&nr, ram_mb)) {
        (Some(c), Some(r)) => !(c >= r),
        _ => true,
    }
}

/// The config to stage: the recommendation, keeping the current (larger or
/// equal) vendor size where the size needs no update.
pub open spec fn spec_for_staging(current: Option<ZramConfigView>, recommended: ZramConfigView, ram_mb: u64) -> ZramConfigView {
    match current {
        Some(c) => match (c.zram_size, recommended.zram_size) {
            (Some(cs), Some(rs)) => if !spec_size_needs_update(Some(cs), rs, ram_mb) {
                ZramConfigView { zram_size: c.zram_size, ..recommended }
            } else {
                recommended
            },
            _ => recommended,
        },
        None => recommended,
    }
}

pub open spec fn ozv(o: Option<&ZramConfig>) -> Option<ZramConfigView> {
    match o {
        Some(z) => Some(z@),
        None => None,
    }
}

/// Prefers keeping a larger vendor size while still updating algorithm,
/// priority and resident limit.
pub fn zram_for_staging(current: Option<&ZramConfig>, recommended: &ZramConfig, ram_mb: u64) -> (r: ZramConfig)
    ensures
        r@ == spec_for_staging(ozv(current), recommended@, ram_mb),
{
    let mut staged = recommended.duplicate();
    if let Some(current) = current {
        if let (Some(cur), Some(rec)) = (&current.zram_size, &recommended.zram_size) {
            if !zram_size_needs_update(Some(cur.as_str()), rec.as_str(), ram_mb) {
                staged.zram_size = copy_opt_string(&current.zram_size);
            }
        }
    }
    staged
}

/// The current zram config differs from the recommendation in a way that
/// calls for restaging.
pub open spec fn spec_zram_needs_update(current: Option<ZramConfigView>, recommended: ZramConfigView, ram_mb: u64) -> bool {
    match current {
        None => true,
        Some(c) => c.device != recommended.device || spec_size_needs_update(
            c.zram_size,
            match recommended.zram_size {
                Some(s) => s,
                None => ""@,
            },
            ram_mb,
        ) || c.zram_resident_limit != recommended.zram_resident_limit || c.compression_algorithm
            != recommended.compression_algorithm || c.swap_priority != recommended.swap_priority,
    }
}

fn opt_eq(a: &Option<String>, b: &Option<String>) -> (r: bool)
    ensures
        r == (sv(*a) == sv(*b)),
{
    match (a, b) {
        (Some(x), Some(y)) => *x == *y,
        (None, None) => true,
        _ => false,
    }
}

pub fn zram_needs_update(current: Option<&ZramConfig>, recommended: &ZramConfig, ram_mb: u64) -> (r: bool)
    ensures
        r == spec_zram_needs_update(ozv(current), recommended@, ram_mb),
{
    let current = match current {
        Some(c) => c,
        None => return true,
    };
    if current.device != recommended.device {
        return true;
    }
    let rec_size: &str = match &recommended.zram_size {
        Some(s) => s.as_str(),
        None => "",
    };
    let cur_size: Option<&str> = match &current.zram_size {
        Some(s) => Some(s.as_str()),
        None => None,
    };
    if zram_size_needs_update(cur_size, rec_size, ram_mb) {
        return true;
    }
    !opt_eq(&current.zram_resident_limit, &recommended.zram_resident_limit) || !opt_eq(
        &current.compression_algorithm,
        &recommended.compression_algorithm,
    ) || current.swap_priority != recommended.swap_priority
}

/// A knob differs when exactly one side sets it or both set different values.
pub open spec fn spec_field_differs(current: Option<u32>, recommended: Option<u32>) -> bool {
    current != recommended
}

pub fn field_differs(current: Option<u32>, recommended: Option<u32>) -> (r: bool)
    ensures
        r == spec_field_differs(current, recommended),
{
    match (current, recommended) {
        (None, None) => false,
        (Some(a), Some(b)) => a != b,
        _ => true,
    }
}

pub open spec fn spec_sysctl_needs_update(current: Option<SysctlValues>, recommended: SysctlValues) -> bool {
    match current {
        None => true,
        Some(c) => c != recommended,
    }
}

/// The live sysctl values are unknown or differ from the recommendation in
/// some knob.
pub fn sysctl_needs_update(current: Option<&SysctlValues>, recommended: &SysctlValues) -> (r: bool)
    ensures
        r == spec_sysctl_needs_update(
            match current {
                Some(c) => Some(*c),
                None => None,
            },
            *recommended,
        ),
{
    let current = match current {
        Some(c) => c,
        None => return true,
    };
    field_differs(current.swappiness, recommended.swappiness) || field_differs(
        current.watermark_boost_factor,
        recommended.watermark_boost_factor,
    ) || field_differs(current.watermark_scale_factor, recommended.watermark_scale_factor)
        || field_differs(current.page_cluster, recommended.page_cluster)
}

} // verus!
