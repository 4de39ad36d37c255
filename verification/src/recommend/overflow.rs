//! The low-priority overflow swapfile behind zram.
use vstd::prelude::*;

use super::scales::{overflow_size_mb_for_scale, spec_overflow_for_scale, RecommendSizeScale};
use super::types::{
    DecisionView, OverflowDecision, OVERFLOW_FREE_SPACE_MARGIN_MB, OVERFLOW_SWAPFILE_MAX_MB,
    OVERFLOW_SWAPFILE_PATH, OVERFLOW_SWAP_PRIORITY,
};
use crate::apply::types::{copy_string, fv, SwapfileConfig, SwapfileConfigView};
use crate::status::{lemma_name_le_total, lemma_name_le_trans, name_le, name_le_of, StatusReport, SwapEntry};
use crate::num::{parse_u64, parse_u64_of};
use crate::text::{chars_eq, chars_of, contains_seq, contains_str, lines, lines_of, owned, trim, trim_chars, views};

verus! {

/// RAM in MiB, capped at [`OVERFLOW_SWAPFILE_MAX_MB`].
pub fn overflow_size_mb(mem_total_kb: u64) -> (r: u64)
    ensures
        r == spec_overflow_for_scale(mem_total_kb, RecommendSizeScale::Default),
        r == (if mem_total_kb / 1024 <= 8192 {
            mem_total_kb / 1024
        } else {
            8192
        }),
{
    overflow_size_mb_for_scale(mem_total_kb, RecommendSizeScale::Default)
}

pub open spec fn is_disk_swap(e: SwapEntry) -> bool {
    !contains_seq(e.name@, "zram"@)
}

/// Some active swap is not zram.
pub open spec fn spec_active_disk_swap(swaps: Seq<SwapEntry>) -> bool {
    exists|i: int| 0 <= i < swaps.len() && is_disk_swap(#[trigger] swaps[i])
}

pub fn has_active_disk_swap(status: &StatusReport) -> (r: bool)
    ensures
        r == spec_active_disk_swap(status.swaps@),
{
    let mut i: usize = 0;
    while i < status.swaps.len()
        invariant
            i <= status.swaps.len(),
            forall|j: int| 0 <= j < i ==> !is_disk_swap(#[trigger] status.swaps@[j]),
        decreases status.swaps.len() - i,
    {
        let n = chars_of(status.swaps[i].name.as_str());
        if !contains_str(&n, "zram") {
            assert(is_disk_swap(status.swaps@[i as int]));
            return true;
        }
        i = i + 1;
    }
    false
}

pub open spec fn overflow_swapfile_view(size_mb: u64) -> SwapfileConfigView {
    SwapfileConfigView { path: OVERFLOW_SWAPFILE_PATH@, size_mb, priority: OVERFLOW_SWAP_PRIORITY }
}

/// Whether and how to stage the overflow swapfile: never next to active or
/// configured disk swap, not at size 0, and only when the free space (if
/// known) covers the size plus a 512 MiB margin.
pub open spec fn spec_decide(
    swaps: Seq<SwapEntry>,
    mem_total_kb: u64,
    configured: bool,
    paths: Seq<Seq<char>>,
    available_bytes: Option<u64>,
    scale: RecommendSizeScale,
) -> DecisionView {
    let size_mb = spec_overflow_for_scale(mem_total_kb, scale);
    let required = if size_mb + OVERFLOW_FREE_SPACE_MARGIN_MB <= u64::MAX {
        (size_mb + OVERFLOW_FREE_SPACE_MARGIN_MB) as u64
    } else {
        u64::MAX
    };
    if spec_active_disk_swap(swaps) {
        DecisionView::SkipActiveDiskSwap
    } else if configured {
        DecisionView::SkipConfiguredDiskSwap(paths)
    } else if size_mb == 0 {
        DecisionView::SkipZeroSize
    } else if available_bytes is Some && available_bytes->0 / 1048576u64 < required {
        DecisionView::SkipInsufficientSpace(required, available_bytes->0 / 1048576u64)
    } else {
        DecisionView::Stage(overflow_swapfile_view(size_mb))
    }
}

pub open spec fn strings_view(v: Seq<String>) -> Seq<Seq<char>> {
    v.map_values(|p: String| p@)
}

fn copy_strings(v: &[String]) -> (r: Vec<String>)
    ensures
        r@ == v@,
{
    let mut r: Vec<String> = Vec::new();
    let mut i: usize = 0;
    while i < v.len()
        invariant
            i <= v.len(),
            r@ == v@.subrange(0, i as int),
        decreases v.len() - i,
    {
        r.push(copy_string(&v[i]));
        i = i + 1;
    }
    assert(v@.subrange(0, v.len() as int) == v@);
    r
}

/// The overflow decision for a size tier.
pub fn decide_overflow_swapfile_scaled(
    status: &StatusReport,
    has_configured_disk_swap: bool,
    configured_paths: &[String],
    available_bytes: Option<u64>,
    scale: RecommendSizeScale,
) -> (d: OverflowDecision)
    ensures
        d@ == spec_decide(
            status.swaps@,
            status.memory.mem_total_kb,
            has_configured_disk_swap,
            strings_view(configured_paths@),
            available_bytes,
            scale,
        ),
{
    if has_active_disk_swap(status) {
        return OverflowDecision::SkipActiveDiskSwap;
    }
    if has_configured_disk_swap {
        let paths = copy_strings(configured_paths);
        return OverflowDecision::SkipConfiguredDiskSwap { paths };
    }
    let size_mb = overflow_size_mb_for_scale(status.memory.mem_total_kb, scale);
    if size_mb == 0 {
        return OverflowDecision::SkipZeroSize;
    }
    let required_mb = size_mb.saturating_add(OVERFLOW_FREE_SPACE_MARGIN_MB);
    if let Some(avail) = available_bytes {
        let available_mb = avail / (1024 * 1024);
        if available_mb < required_mb {
            return OverflowDecision::SkipInsufficientSpace { required_mb, available_mb };
        }
    }
    OverflowDecision::Stage(
        SwapfileConfig { path: owned(OVERFLOW_SWAPFILE_PATH), size_mb, priority: OVERFLOW_SWAP_PRIORITY },
    )
}

/// The overflow decision at the default tier (RAM up to 8 GiB).
pub fn decide_overflow_swapfile(
    status: &StatusReport,
    has_configured_disk_swap: bool,
    configured_paths: &[String],
    available_bytes: Option<u64>,
) -> (d: OverflowDecision)
    ensures
        d@ == spec_decide(
            status.swaps@,
            status.memory.mem_total_kb,
            has_configured_disk_swap,
            strings_view(configured_paths@),
            available_bytes,
            RecommendSizeScale::Default,
        ),
{
    decide_overflow_swapfile_scaled(
        status,
        has_configured_disk_swap,
        configured_paths,
        available_bytes,
        RecommendSizeScale::Default,
    )
}

/// The overflow swapfile to stage, if the default-tier decision stages one.
pub fn build_overflow_swapfile(
    status: &StatusReport,
    has_configured_disk_swap: bool,
    configured_paths: &[String],
    available_bytes: Option<u64>,
) -> (r: Option<SwapfileConfig>)
    ensures
        fv(r) == match spec_decide(
            status.swaps@,
            status.memory.mem_total_kb,
            has_configured_disk_swap,
            strings_view(configured_paths@),
            available_bytes,
            RecommendSizeScale::Default,
        ) {
            DecisionView::Stage(c) => Some(c),
            _ => None,
        },
{
    match decide_overflow_swapfile(status, has_configured_disk_swap, configured_paths, available_bytes) {
        OverflowDecision::Stage(config) => Some(config),
        _ => None,
    }
}

/// A staged overflow swapfile always sits below zram (priority 10 < 100),
/// never exceeds the high tier's 16 GiB, lies at /swap/swapfile, and is only
/// staged where the free space (when known) covers it plus a 512 MiB margin;
/// where the known free space falls short, the decision is that space is
/// insufficient.
pub proof fn lemma_staged_overflow_bounds(
    swaps: Seq<SwapEntry>,
    mem_total_kb: u64,
    configured: bool,
    paths: Seq<Seq<char>>,
    available_bytes: Option<u64>,
    scale: RecommendSizeScale,
)
    ensures
        spec_decide(swaps, mem_total_kb, configured, paths, available_bytes, scale) matches DecisionView::Stage(c)
            ==> c.priority < 100 && 0 < c.size_mb <= 16384 && !spec_active_disk_swap(swaps)
            && !configured,
        spec_decide(swaps, mem_total_kb, configured, paths, available_bytes, scale) matches DecisionView::Stage(c)
            ==> c.path == OVERFLOW_SWAPFILE_PATH@ && (available_bytes is None || available_bytes->0 / 1048576
            >= c.size_mb + 512),
        (!spec_active_disk_swap(swaps) && !configured && available_bytes is Some && available_bytes->0 / 1048576
            < spec_overflow_for_scale(mem_total_kb, scale) + 512 && spec_overflow_for_scale(mem_total_kb, scale) > 0)
            ==> spec_decide(swaps, mem_total_kb, configured, paths, available_bytes, scale) is SkipInsufficientSpace,
{
}

// ---------------------------------------------------------------------------
// Disk swap already configured
// ---------------------------------------------------------------------------

pub open spec fn name_lt(a: Seq<char>, b: Seq<char>) -> bool {
    name_le(a, b) && a != b
}

/// Names in increasing order, each once.
pub open spec fn strictly_sorted(v: Seq<Seq<char>>) -> bool {
    forall|i: int, j: int| 0 <= i < j < v.len() ==> name_lt(#[trigger] v[i], #[trigger] v[j])
}

/// A configured swap that is disk swap: its name does not mention zram.
pub open spec fn is_disk_name(p: Seq<char>) -> bool {
    !contains_seq(p, "zram"@)
}

pub proof fn lemma_name_le_antisym(a: Seq<char>, b: Seq<char>)
    requires
        name_le(a, b),
        name_le(b, a),
    ensures
        a == b,
    decreases a.len(),
{
    if a.len() > 0 && b.len() > 0 {
        lemma_name_le_antisym(a.drop_first(), b.drop_first());
        assert(a =~= seq![a[0]] + a.drop_first());
        assert(b =~= seq![b[0]] + b.drop_first());
    } else if a.len() == 0 {
        assert(b.len() == 0);
        assert(a =~= b);
    }
}

proof fn lemma_name_lt_trans(a: Seq<char>, b: Seq<char>, c: Seq<char>)
    requires
        name_lt(a, b),
        name_lt(b, c),
    ensures
        name_lt(a, c),
{
    lemma_name_le_trans(a, b, c);
    if a == c {
        lemma_name_le_antisym(a, b);
    }
}

fn below_at(v: &Vec<String>, i: usize, c: &[char]) -> (r: bool)
    requires
        i < v.len(),
    ensures
        r == name_lt(v@[i as int]@, c@),
{
    let vc = chars_of(v[i].as_str());
    name_le_of(&vc, c) && !chars_eq(&vc, c)
}

fn insert_sorted_unique(out: &mut Vec<String>, c: String)
    requires
        strictly_sorted(strings_view(old(out)@)),
    ensures
        strictly_sorted(strings_view(final(out)@)),
        forall|x: Seq<char>| strings_view(final(out)@).contains(x) <==> (strings_view(old(out)@).contains(x) || x == c@),
{
    let ghost s = strings_view(out@);
    let cc = chars_of(c.as_str());
    let mut i: usize = 0;
    while i < out.len() && below_at(out, i, &cc)
        invariant
            i <= out.len(),
            s == strings_view(out@),
            cc@ == c@,
            forall|j: int| 0 <= j < i ==> name_lt(#[trigger] s[j], c@),
        decreases out.len() - i,
    {
        i = i + 1;
    }
    if i < out.len() && chars_eq(&chars_of(out[i].as_str()), &cc) {
        assert(s[i as int] == c@);
        assert forall|x: Seq<char>| s.contains(x) <==> (s.contains(x) || x == c@) by {
            if x == c@ {
                assert(s[i as int] == x);
            }
        }
        return;
    }
    proof {
        if i < s.len() {
            assert(!name_lt(s[i as int], c@));
            assert(s[i as int] != c@);
            lemma_name_le_total(s[i as int], c@);
            assert(name_lt(c@, s[i as int]));
        }
    }
    out.insert(i, c);
    let ghost t = strings_view(out@);
    assert(t =~= s.insert(i as int, c@));
    assert forall|a: int, b: int| 0 <= a < b < t.len() implies name_lt(#[trigger] t[a], #[trigger] t[b]) by {
        if b < i {
            assert(t[a] == s[a] && t[b] == s[b]);
        } else if b == i {
            assert(t[a] == s[a] && t[b] == c@);
        } else if a < i {
            assert(t[a] == s[a] && t[b] == s[b - 1]);
            assert(name_lt(s[a], c@));
            assert(name_lt(c@, s[i as int]));
            if b - 1 > i {
                assert(name_lt(s[i as int], s[b - 1]));
                lemma_name_lt_trans(c@, s[i as int], s[b - 1]);
            }
            lemma_name_lt_trans(s[a], c@, s[b - 1]);
        } else if a == i {
            assert(t[a] == c@ && t[b] == s[b - 1]);
            if b - 1 > i {
                assert(name_lt(s[i as int], s[b - 1]));
                lemma_name_lt_trans(c@, s[i as int], s[b - 1]);
            }
        } else {
            assert(t[a] == s[a - 1] && t[b] == s[b - 1]);
        }
    }
    assert forall|x: Seq<char>| t.contains(x) <==> (s.contains(x) || x == c@) by {
        if t.contains(x) {
            let k = choose|k: int| 0 <= k < t.len() && t[k] == x;
            if k < i {
                assert(s[k] == x);
            } else if k > i {
                assert(s[k - 1] == x);
            }
        }
        if s.contains(x) {
            let k = choose|k: int| 0 <= k < s.len() && s[k] == x;
            if k < i {
                assert(t[k] == x);
            } else {
                assert(t[k + 1] == x);
            }
        }
        if x == c@ {
            assert(t[i as int] == x);
        }
    }
}

/// The disk swap that fstab already configures: the swapfile paths and the
/// swap partition devices that are not zram, in order and each once; with
/// whether there is any.
pub fn configured_disk_swap(swapfile_paths: &[String], partition_devices: &[String]) -> (r: (bool, Vec<String>))
    requires
        swapfile_paths.len() + partition_devices.len() <= usize::MAX,
    ensures
        strictly_sorted(strings_view(r.1@)),
        forall|x: Seq<char>|
            strings_view(r.1@).contains(x) <==> (strings_view(swapfile_paths@ + partition_devices@).contains(x)
                && is_disk_name(x)),
        r.0 == (r.1@.len() > 0),
{
    let mut out: Vec<String> = Vec::new();
    let ghost all = strings_view(swapfile_paths@ + partition_devices@);
    let n1 = swapfile_paths.len();
    let n = n1 + partition_devices.len();
    let zram = chars_of("zram");
    let mut k: usize = 0;
    while k < n
        invariant
            k <= n,
            n1 == swapfile_paths.len(),
            n == n1 + partition_devices.len(),
            all == strings_view(swapfile_paths@ + partition_devices@),
            all.len() == n,
            zram@ == "zram"@,
            strictly_sorted(strings_view(out@)),
            forall|x: Seq<char>|
                strings_view(out@).contains(x) <==> (exists|j: int| 0 <= j < k && #[trigger] all[j] == x && is_disk_name(x)),
        decreases n - k,
    {
        let p = if k < n1 {
            owned(swapfile_paths[k].as_str())
        } else {
            owned(partition_devices[k - n1].as_str())
        };
        assert(all[k as int] == p@) by {
            if k < n1 {
                assert((swapfile_paths@ + partition_devices@)[k as int] == swapfile_paths@[k as int]);
            } else {
                assert((swapfile_paths@ + partition_devices@)[k as int] == partition_devices@[k - n1]);
            }
        }
        let ghost before = strings_view(out@);
        let disk = !crate::text::contains_of(&chars_of(p.as_str()), &zram);
        let ghost pv = p@;
        if disk {
            insert_sorted_unique(&mut out, p);
        }
        assert forall|x: Seq<char>|
            strings_view(out@).contains(x) <==> (exists|j: int| 0 <= j < k + 1 && #[trigger] all[j] == x && is_disk_name(
                x,
            )) by {
            if exists|j: int| 0 <= j < k + 1 && #[trigger] all[j] == x && is_disk_name(x) {
                let j = choose|j: int| 0 <= j < k + 1 && #[trigger] all[j] == x && is_disk_name(x);
                if j < k {
                    assert(before.contains(x));
                }
            }
            if strings_view(out@).contains(x) && !before.contains(x) {
                assert(x == pv);
                assert(all[k as int] == x);
            }
        }
        k = k + 1;
    }
    assert forall|x: Seq<char>| strings_view(out@).contains(x) <==> (all.contains(x) && is_disk_name(x)) by {
        if all.contains(x) && is_disk_name(x) {
            let j = choose|j: int| 0 <= j < all.len() && all[j] == x;
            assert(all[j] == x);
        }
    }
    let any = out.len() > 0;
    (any, out)
}

/// The available bytes that `df -B1 --output=avail` printed: the first
/// non-blank line after the header, trimmed, as a number.
pub open spec fn first_value_line(ls: Seq<Seq<char>>) -> Option<Seq<char>>
    decreases ls.len(),
{
    if ls.len() == 0 {
        None
    } else if trim(ls[0]).len() > 0 {
        Some(trim(ls[0]))
    } else {
        first_value_line(ls.drop_first())
    }
}

pub open spec fn spec_df_available(output: Seq<char>) -> Option<u64> {
    let ls = lines(output);
    if ls.len() == 0 {
        None
    } else {
        match first_value_line(ls.drop_first()) {
            Some(v) => parse_u64(v),
            None => None,
        }
    }
}

pub fn parse_df_available(output: &str) -> (r: Option<u64>)
    ensures
        r == spec_df_available(output@),
{
    let c = chars_of(output);
    let ls = lines_of(&c);
    let ghost all = views(ls@);
    if ls.len() == 0 {
        return None;
    }
    let mut i: usize = 1;
    assert(all.subrange(1, all.len() as int) =~= all.drop_first());
    while i < ls.len()
        invariant
            1 <= i <= ls.len(),
            all == views(ls@),
            all == lines(output@),
            first_value_line(all.drop_first()) == first_value_line(all.subrange(i as int, all.len() as int)),
        decreases ls.len() - i,
    {
        let ghost rest = all.subrange(i as int, all.len() as int);
        assert(rest[0] == ls@[i as int]@);
        assert(rest.drop_first() =~= all.subrange(i + 1, all.len() as int));
        let t = trim_chars(&ls[i]);
        if t.len() > 0 {
            return parse_u64_of(&t);
        }
        i = i + 1;
    }
    assert(all.subrange(ls.len() as int, all.len() as int) =~= Seq::<Seq<char>>::empty());
    None
}

} // verus!
