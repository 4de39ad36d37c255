//! Health checks on swap layout and kernel settings.
use vstd::prelude::*;

use crate::num::{parse_u32, parse_u32_of};
use crate::status::{SwapEntry, ZramDevice};
use crate::text::{
    chars_of, contains_seq, contains_str, eq_str, lines, lines_of, split_once, split_once_of,
    starts_with, starts_with_of, starts_with_str, trim, trim_chars, views,
};

verus! {

/// zswap's `enabled` parameter reads `Y` or `1` (after trimming).
pub open spec fn spec_zswap_enabled(content: Option<Seq<char>>) -> Option<bool> {
    match content {
        Some(c) => Some(trim(c) == "Y"@ || trim(c) == "1"@),
        None => None,
    }
}

/// Whether zswap is enabled, from the text of
/// `/sys/module/zswap/parameters/enabled` (`None` when it cannot be read).
pub fn zswap_enabled(content: Option<&str>) -> (r: Option<bool>)
    ensures
        r == spec_zswap_enabled(
            match content {
                Some(c) => Some(c@),
                None => None,
            },
        ),
{
    match content {
        Some(c) => {
            let v = chars_of(c);
            let t = trim_chars(&v);
            Some(eq_str(&t, "Y") || eq_str(&t, "1"))
        },
        None => None,
    }
}

/// zram and zswap conflict when zram devices exist and zswap is enabled.
pub fn zram_zswap_conflict(zram_devices: &[ZramDevice], zswap: Option<bool>) -> (r: bool)
    ensures
        r == (zram_devices.len() > 0 && zswap == Some(true)),
{
    if zram_devices.len() == 0 {
        return false;
    }
    match zswap {
        Some(true) => true,
        _ => false,
    }
}

/// `"major:minor"` as two `u32` numbers.
pub open spec fn spec_major_minor(value: Seq<char>) -> Option<(u32, u32)> {
    match split_once(value, ':') {
        Some((a, b)) => match (parse_u32(a), parse_u32(b)) {
            (Some(x), Some(y)) => Some((x, y)),
            _ => None,
        },
        None => None,
    }
}

pub fn parse_major_minor(value: &str) -> (r: Option<(u32, u32)>)
    ensures
        r == spec_major_minor(value@),
{
    let v = chars_of(value);
    match split_once_of(&v, ':') {
        Some((a, b)) => match (parse_u32_of(&a), parse_u32_of(&b)) {
            (Some(x), Some(y)) => Some((x, y)),
            _ => None,
        },
        None => None,
    }
}

/// The device in `/sys/power/resume`, unless hibernation resume is unset
/// (empty or `0:0`) or the text is not `major:minor`.
pub open spec fn spec_resume_device(resume: Seq<char>) -> Option<(u32, u32)> {
    let r = trim(resume);
    if r.len() == 0 || r == "0:0"@ {
        None
    } else {
        spec_major_minor(r)
    }
}

pub fn resume_device(resume: &str) -> (r: Option<(u32, u32)>)
    ensures
        r == spec_resume_device(resume@),
{
    let v = chars_of(resume);
    let t = trim_chars(&v);
    if t.len() == 0 || eq_str(&t, "0:0") {
        return None;
    }
    let ts = crate::text::string_of(&t);
    parse_major_minor(ts.as_str())
}

/// The hibernation resume device is a zram device: `resume` is the text of
/// `/sys/power/resume` and `device_name` the name of the block device that
/// its `major:minor` links to.
pub fn hibernation_zram_conflict(resume: Option<&str>, device_name: Option<&str>) -> (r: bool)
    ensures
        r == (match resume {
            Some(t) => spec_resume_device(t@) is Some && match device_name {
                Some(n) => starts_with(n@, "zram"@),
                None => false,
            },
            None => false,
        }),
{
    match resume {
        None => false,
        Some(t) => {
            if resume_device(t).is_none() {
                return false;
            }
            match device_name {
                Some(n) => {
                    let c = chars_of(n);
                    starts_with_str(&c, "zram")
                },
                None => false,
            }
        },
    }
}

// ---------------------------------------------------------------------------
// Swap priorities
// ---------------------------------------------------------------------------

pub open spec fn is_zram_swap(e: SwapEntry) -> bool {
    contains_seq(e.name@, "zram"@)
}

/// The highest priority among the swaps that are (`zram`) or are not zram.
pub open spec fn max_priority(s: Seq<SwapEntry>, zram: bool) -> Option<i32>
    decreases s.len(),
{
    if s.len() == 0 {
        None
    } else {
        let p = max_priority(s.drop_last(), zram);
        if is_zram_swap(s.last()) == zram {
            match p {
                Some(m) => Some(if m >= s.last().priority {
                    m
                } else {
                    s.last().priority
                }),
                None => Some(s.last().priority),
            }
        } else {
            p
        }
    }
}

/// Disk swap is preferred over zram: there are zram and disk swaps and the
/// best disk priority is at least the best zram priority.
pub open spec fn spec_priority_inverted(s: Seq<SwapEntry>) -> bool {
    s.len() >= 2 && match (max_priority(s, true), max_priority(s, false)) {
        (Some(z), Some(d)) => d >= z,
        _ => false,
    }
}

/// `max_priority` is the largest priority among the swaps of that kind, and
/// `None` exactly when there is none.
pub proof fn lemma_max_priority(s: Seq<SwapEntry>, zram: bool)
    ensures
        match max_priority(s, zram) {
            Some(m) => (exists|i: int| 0 <= i < s.len() && is_zram_swap(s[i]) == zram && (#[trigger] s[i]).priority == m)
                && (forall|i: int| 0 <= i < s.len() && is_zram_swap(#[trigger] s[i]) == zram ==> s[i].priority <= m),
            None => forall|i: int| 0 <= i < s.len() ==> is_zram_swap(#[trigger] s[i]) != zram,
        },
    decreases s.len(),
{
    if s.len() > 0 {
        let t = s.drop_last();
        lemma_max_priority(t, zram);
        assert forall|i: int| 0 <= i < t.len() implies #[trigger] t[i] == s[i] by {}
        let n = s.len() - 1;
        match max_priority(t, zram) {
            Some(m) => {
                let j = choose|i: int| 0 <= i < t.len() && is_zram_swap(t[i]) == zram && (#[trigger] t[i]).priority == m;
                assert(s[j] == t[j]);
                assert forall|i: int| 0 <= i < s.len() && is_zram_swap(#[trigger] s[i]) == zram implies s[i].priority
                    <= max_priority(s, zram)->0 by {
                    if i < n {
                        assert(s[i] == t[i]);
                    }
                }
            },
            None => {
                assert forall|i: int| 0 <= i < s.len() && is_zram_swap(#[trigger] s[i]) == zram implies s[i].priority
                    <= max_priority(s, zram)->0 by {
                    if i < n {
                        assert(s[i] == t[i]);
                    }
                }
                assert forall|i: int| 0 <= i < s.len() && max_priority(s, zram) is None implies is_zram_swap(
                    #[trigger] s[i],
                ) != zram by {
                    if i < n {
                        assert(s[i] == t[i]);
                    }
                }
            },
        }
    }
}

/// Priority inversion in terms of the swaps themselves: with at least two
/// swaps, some zram swap exists and some disk swap has a priority at least
/// that of every zram swap.
pub proof fn lemma_priority_inverted_max_form(s: Seq<SwapEntry>)
    ensures
        spec_priority_inverted(s) == (s.len() >= 2 && (exists|z: int| 0 <= z < s.len() && is_zram_swap(#[trigger] s[z]))
            && exists|d: int|
            0 <= d < s.len() && !is_zram_swap(#[trigger] s[d]) && forall|z: int|
                0 <= z < s.len() && is_zram_swap(#[trigger] s[z]) ==> s[d].priority >= s[z].priority),
{
    lemma_max_priority(s, true);
    lemma_max_priority(s, false);
    let rhs = s.len() >= 2 && (exists|z: int| 0 <= z < s.len() && is_zram_swap(#[trigger] s[z])) && exists|d: int|
        0 <= d < s.len() && !is_zram_swap(#[trigger] s[d]) && forall|z: int|
            0 <= z < s.len() && is_zram_swap(#[trigger] s[z]) ==> s[d].priority >= s[z].priority;
    if spec_priority_inverted(s) {
        let zm = max_priority(s, true)->0;
        let dm = max_priority(s, false)->0;
        let zi = choose|i: int| 0 <= i < s.len() && is_zram_swap(s[i]) == true && (#[trigger] s[i]).priority == zm;
        let di = choose|i: int| 0 <= i < s.len() && is_zram_swap(s[i]) == false && (#[trigger] s[i]).priority == dm;
        assert(is_zram_swap(s[zi]));
        assert(!is_zram_swap(s[di]));
        assert forall|z: int| 0 <= z < s.len() && is_zram_swap(#[trigger] s[z]) implies s[di].priority
            >= s[z].priority by {}
        assert(rhs);
    }
    if rhs {
        let zi = choose|z: int| 0 <= z < s.len() && is_zram_swap(#[trigger] s[z]);
        let di = choose|d: int|
            0 <= d < s.len() && !is_zram_swap(#[trigger] s[d]) && forall|z: int|
                0 <= z < s.len() && is_zram_swap(#[trigger] s[z]) ==> s[d].priority >= s[z].priority;
        assert(is_zram_swap(s[zi]));
        assert(max_priority(s, true) is Some);
        assert(max_priority(s, false) is Some);
        let zm = max_priority(s, true)->0;
        let zj = choose|i: int| 0 <= i < s.len() && is_zram_swap(s[i]) == true && (#[trigger] s[i]).priority == zm;
        assert(s[di].priority >= s[zj].priority);
        assert(s[di].priority <= max_priority(s, false)->0);
    }
}

/// The highest priority of the zram (or non-zram) swaps.
pub fn max_swap_priority(swaps: &[SwapEntry], zram: bool) -> (r: Option<i32>)
    ensures
        r == max_priority(swaps@, zram),
{
    let mut best: Option<i32> = None;
    let mut i: usize = 0;
    while i < swaps.len()
        invariant
            i <= swaps.len(),
            best == max_priority(swaps@.subrange(0, i as int), zram),
        decreases swaps.len() - i,
    {
        let ghost pre = swaps@.subrange(0, (i + 1) as int);
        assert(pre.drop_last() == swaps@.subrange(0, i as int));
        let e = &swaps[i];
        let n = chars_of(e.name.as_str());
        if contains_str(&n, "zram") == zram {
            best = match best {
                Some(m) => Some(
                    if m >= e.priority {
                        m
                    } else {
                        e.priority
                    },
                ),
                None => Some(e.priority),
            };
        }
        i = i + 1;
    }
    assert(swaps@.subrange(0, swaps.len() as int) == swaps@);
    best
}

/// Disk swap priority is at least the zram priority, so the kernel would fill
/// disk swap before zram.
pub fn priority_inverted(swaps: &[SwapEntry]) -> (r: bool)
    ensures
        r == spec_priority_inverted(swaps@),
{
    if swaps.len() < 2 {
        return false;
    }
    match (max_swap_priority(swaps, true), max_swap_priority(swaps, false)) {
        (Some(z), Some(d)) => d >= z,
        _ => false,
    }
}

// ---------------------------------------------------------------------------
// Compression algorithm
// ---------------------------------------------------------------------------

pub open spec fn ascii_lower(c: char) -> char {
    if 65 <= (c as u32) && (c as u32) <= 90 {
        ((c as u32) + 32) as char
    } else {
        c
    }
}

/// `str::eq_ignore_ascii_case`.
pub open spec fn eq_ignore_ascii_case(a: Seq<char>, b: Seq<char>) -> bool {
    a.len() == b.len() && forall|i: int| 0 <= i < a.len() ==> ascii_lower(a[i]) == ascii_lower(b[i])
}

fn ascii_lower_of(c: char) -> (r: char)
    ensures
        r == ascii_lower(c),
{
    if 'A' <= c && c <= 'Z' {
        let b = (c as u32) as u8 + 32;
        b as char
    } else {
        c
    }
}

pub fn eq_ignore_ascii_case_of(a: &[char], b: &[char]) -> (r: bool)
    ensures
        r == eq_ignore_ascii_case(a@, b@),
{
    if a.len() != b.len() {
        return false;
    }
    let mut i: usize = 0;
    while i < a.len()
        invariant
            i <= a.len() == b.len(),
            forall|j: int| 0 <= j < i ==> ascii_lower(a@[j]) == ascii_lower(b@[j]),
        decreases a.len() - i,
    {
        if ascii_lower_of(a[i]) != ascii_lower_of(b[i]) {
            return false;
        }
        i = i + 1;
    }
    true
}

/// The configured and active algorithms differ: both are given (non-empty
/// after trimming), they are not equal ignoring ASCII case, and neither is a
/// prefix of the other (so `lzo` matches `lzo-rle`).
pub open spec fn spec_algorithm_mismatch(configured: Seq<char>, active: Seq<char>) -> bool {
    let c = trim(configured);
    let a = trim(active);
    c.len() > 0 && a.len() > 0 && !eq_ignore_ascii_case(a, c) && !starts_with(a, c)
        && !starts_with(c, a)
}

pub fn algorithm_mismatch(configured: &str, active: &str) -> (r: bool)
    ensures
        r == spec_algorithm_mismatch(configured@, active@),
{
    let cv = chars_of(configured);
    let av = chars_of(active);
    let c = trim_chars(&cv);
    let a = trim_chars(&av);
    if c.len() == 0 || a.len() == 0 {
        return false;
    }
    !eq_ignore_ascii_case_of(&a, &c) && !starts_with_of(&a, &c) && !starts_with_of(&c, &a)
}

// ---------------------------------------------------------------------------
// CPU count
// ---------------------------------------------------------------------------

/// Number of lines that start with `p`.
pub open spec fn count_prefixed(ls: Seq<Seq<char>>, p: Seq<char>) -> nat
    decreases ls.len(),
{
    if ls.len() == 0 {
        0
    } else {
        count_prefixed(ls.drop_last(), p) + if starts_with(ls.last(), p) {
            1nat
        } else {
            0nat
        }
    }
}

/// Logical CPUs: the `processor` lines of /proc/cpuinfo (counted as `u32`,
/// wrapping), at least 1; 1 when the file cannot be read.
pub open spec fn spec_cpu_core_count(content: Option<Seq<char>>) -> u32 {
    match content {
        Some(c) => {
            let n = (count_prefixed(lines(c), "processor"@) % 0x1_0000_0000) as u32;
            if n >= 1 {
                n
            } else {
                1
            }
        },
        None => 1,
    }
}

pub fn cpu_core_count(cpuinfo: Option<&str>) -> (n: u32)
    ensures
        n == spec_cpu_core_count(
            match cpuinfo {
                Some(c) => Some(c@),
                None => None,
            },
        ),
{
    match cpuinfo {
        None => 1,
        Some(content) => {
            let c = chars_of(content);
            let ls = lines_of(&c);
            let mut count: u32 = 0;
            let mut i: usize = 0;
            while i < ls.len()
                invariant
                    i <= ls.len(),
                    views(ls@) == lines(c@),
                    count == (count_prefixed(views(ls@).subrange(0, i as int), "processor"@)
                        % 0x1_0000_0000) as u32,
                decreases ls.len() - i,
            {
                let ghost pre = views(ls@).subrange(0, (i + 1) as int);
                assert(pre.drop_last() == views(ls@).subrange(0, i as int));
                assert(pre.last() == ls@[i as int]@);
                if starts_with_str(&ls[i], "processor") {
                    count = if count == 0xFFFF_FFFF {
                        0
                    } else {
                        count + 1
                    };
                }
                i = i + 1;
            }
            assert(views(ls@).subrange(0, ls.len() as int) == views(ls@));
            if count >= 1 {
                count
            } else {
                1
            }
        },
    }
}

} // verus!
