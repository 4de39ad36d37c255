//! Swap and memory status: parsing of /proc and sysfs text, byte formatting.
use vstd::prelude::*;

use crate::error::XzramError;

use crate::num::{
    digit_char, digit_char_of, nat_str, parse_i32, parse_i32_of, parse_u64, parse_u64_of,
    push_nat,
};
use crate::text::{
    chars_of, eq_str, lines, lines_of, push_char, push_str, split_once, split_once_of, split_ws,
    split_ws_of, string_of, trim, trim_chars, views,
};

verus! {

#[derive(Debug, Clone)]
pub struct SwapEntry {
    pub name: String,
    pub swap_type: String,
    pub size_bytes: u64,
    pub used_bytes: u64,
    pub priority: i32,
}

#[derive(Debug, Clone)]
pub struct ZramDevice {
    pub name: String,
    pub algorithm: String,
    pub disk_size_bytes: u64,
    pub data_bytes: u64,
    pub compressed_bytes: u64,
    pub total_bytes: u64,
    pub streams: u32,
    pub mount_point: String,
}

#[derive(Debug, Clone, Copy, PartialEq, Eq)]
pub struct MemoryInfo {
    pub mem_total_kb: u64,
    pub mem_available_kb: u64,
    pub swap_total_kb: u64,
    pub swap_free_kb: u64,
}

#[derive(Debug, Clone)]
pub struct StatusReport {
    pub swaps: Vec<SwapEntry>,
    pub zram_devices: Vec<ZramDevice>,
    pub memory: MemoryInfo,
}

// ---------------------------------------------------------------------------
// /proc/swaps
// ---------------------------------------------------------------------------

/// A numeric column of /proc/swaps: its parse, or 0.
pub open spec fn u64_or_zero(s: Seq<char>) -> u64 {
    match parse_u64(s) {
        Some(v) => v,
        None => 0,
    }
}

/// KiB to bytes as a `u64` product: taken modulo 2^64, never saturated.
pub open spec fn kib_to_bytes(k: u64) -> u64 {
    ((k as nat * 1024) % 0x1_0000_0000_0000_0000) as u64
}

/// One /proc/swaps row with at least five fields.
pub struct SwapRow {
    pub name: Seq<char>,
    pub swap_type: Seq<char>,
    pub size_bytes: u64,
    pub used_bytes: u64,
    pub priority: i32,
}

pub open spec fn swap_row(f: Seq<Seq<char>>) -> SwapRow {
    SwapRow {
        name: f[0],
        swap_type: f[1],
        size_bytes: kib_to_bytes(u64_or_zero(f[2])),
        used_bytes: kib_to_bytes(u64_or_zero(f[3])),
        priority: match parse_i32(f[4]) {
            Some(p) => p,
            None => 0,
        },
    }
}

/// The rows of /proc/swaps after its header line; rows with fewer than five
/// fields are skipped.
pub open spec fn swap_rows(ls: Seq<Seq<char>>) -> Seq<SwapRow>
    decreases ls.len(),
{
    if ls.len() == 0 {
        Seq::empty()
    } else {
        let prev = swap_rows(ls.drop_last());
        let f = split_ws(ls.last());
        if f.len() >= 5 {
            prev.push(swap_row(f))
        } else {
            prev
        }
    }
}

pub open spec fn entry_view(e: SwapEntry) -> SwapRow {
    SwapRow {
        name: e.name@,
        swap_type: e.swap_type@,
        size_bytes: e.size_bytes,
        used_bytes: e.used_bytes,
        priority: e.priority,
    }
}

pub open spec fn entries_view(v: Seq<SwapEntry>) -> Seq<SwapRow> {
    v.map_values(|e: SwapEntry| entry_view(e))
}

pub open spec fn body_lines(content: Seq<char>) -> Seq<Seq<char>> {
    let ls = lines(content);
    if ls.len() == 0 {
        ls
    } else {
        ls.drop_first()
    }
}

pub fn kib_bytes(k: u64) -> (b: u64)
    ensures
        b == kib_to_bytes(k),
{
    let r: u128 = (k as u128) * 1024;
    assert(r < 0x1_0000_0000_0000_0000_0000_0000_0000_0000) by (nonlinear_arith)
        requires
            r == k as nat * 1024,
            k < 0x1_0000_0000_0000_0000,
    ;
    (r % 0x1_0000_0000_0000_0000u128) as u64
}

/// Parses the text of /proc/swaps.
pub fn parse_proc_swaps(content: &str) -> (v: Vec<SwapEntry>)
    ensures
        entries_view(v@) == swap_rows(body_lines(content@)),
{
    let c = chars_of(content);
    let ls = lines_of(&c);
    let mut v: Vec<SwapEntry> = Vec::new();
    if ls.len() == 0 {
        return v;
    }
    let ghost body = views(ls@).drop_first();
    let mut i: usize = 1;
    while i < ls.len()
        invariant
            1 <= i <= ls.len(),
            views(ls@) == lines(c@),
            body == views(ls@).drop_first(),
            entries_view(v@) == swap_rows(body.subrange(0, i - 1)),
        decreases ls.len() - i,
    {
        let ghost pre = body.subrange(0, i as int);
        assert(pre.drop_last() == body.subrange(0, i - 1));
        assert(pre.last() == ls@[i as int]@);
        let f = split_ws_of(&ls[i]);
        if f.len() >= 5 {
            let e = SwapEntry {
                name: string_of(&f[0]),
                swap_type: string_of(&f[1]),
                size_bytes: kib_bytes(match parse_u64_of(&f[2]) {
                    Some(x) => x,
                    None => 0,
                }),
                used_bytes: kib_bytes(match parse_u64_of(&f[3]) {
                    Some(x) => x,
                    None => 0,
                }),
                priority: match parse_i32_of(&f[4]) {
                    Some(p) => p,
                    None => 0,
                },
            };
            let ghost old_v = v@;
            v.push(e);
            assert(entries_view(v@) =~= entries_view(old_v).push(entry_view(e)));
        }
        i = i + 1;
    }
    assert(body.subrange(0, (ls.len() - 1) as int) == body);
    v
}

// ---------------------------------------------------------------------------
// /proc/meminfo
// ---------------------------------------------------------------------------

/// The number in a meminfo value such as `"  16384 kB"`: its first field,
/// parsed, or 0.
pub open spec fn meminfo_number(value: Seq<char>) -> u64 {
    let f = split_ws(value);
    if f.len() == 0 {
        u64_or_zero("0"@)
    } else {
        u64_or_zero(f[0])
    }
}

pub open spec fn meminfo_line(m: MemoryInfo, line: Seq<char>) -> MemoryInfo {
    match split_once(line, ':') {
        None => m,
        Some((key, value)) => {
            let v = meminfo_number(value);
            if key == "MemTotal"@ {
                MemoryInfo { mem_total_kb: v, ..m }
            } else if key == "MemAvailable"@ {
                MemoryInfo { mem_available_kb: v, ..m }
            } else if key == "SwapTotal"@ {
                MemoryInfo { swap_total_kb: v, ..m }
            } else if key == "SwapFree"@ {
                MemoryInfo { swap_free_kb: v, ..m }
            } else {
                m
            }
        },
    }
}

pub open spec fn meminfo_of(ls: Seq<Seq<char>>) -> MemoryInfo
    decreases ls.len(),
{
    if ls.len() == 0 {
        MemoryInfo { mem_total_kb: 0, mem_available_kb: 0, swap_total_kb: 0, swap_free_kb: 0 }
    } else {
        meminfo_line(meminfo_of(ls.drop_last()), ls.last())
    }
}

fn meminfo_number_of(value: &[char]) -> (n: u64)
    ensures
        n == meminfo_number(value@),
{
    let f = split_ws_of(value);
    if f.len() == 0 {
        let z = chars_of("0");
        match parse_u64_of(&z) {
            Some(x) => x,
            None => 0,
        }
    } else {
        match parse_u64_of(&f[0]) {
            Some(x) => x,
            None => 0,
        }
    }
}

/// Parses the text of /proc/meminfo (missing keys read as 0).
pub fn parse_meminfo(content: &str) -> (m: MemoryInfo)
    ensures
        m == meminfo_of(lines(content@)),
{
    let c = chars_of(content);
    let ls = lines_of(&c);
    let mut m = MemoryInfo { mem_total_kb: 0, mem_available_kb: 0, swap_total_kb: 0, swap_free_kb: 0 };
    let mut i: usize = 0;
    while i < ls.len()
        invariant
            i <= ls.len(),
            views(ls@) == lines(c@),
            m == meminfo_of(views(ls@).subrange(0, i as int)),
        decreases ls.len() - i,
    {
        let ghost pre = views(ls@).subrange(0, (i + 1) as int);
        assert(pre.drop_last() == views(ls@).subrange(0, i as int));
        assert(pre.last() == ls@[i as int]@);
        match split_once_of(&ls[i], ':') {
            None => {},
            Some((key, value)) => {
                let v = meminfo_number_of(&value);
                if eq_str(&key, "MemTotal") {
                    m = MemoryInfo { mem_total_kb: v, ..m };
                } else if eq_str(&key, "MemAvailable") {
                    m = MemoryInfo { mem_available_kb: v, ..m };
                } else if eq_str(&key, "SwapTotal") {
                    m = MemoryInfo { swap_total_kb: v, ..m };
                } else if eq_str(&key, "SwapFree") {
                    m = MemoryInfo { swap_free_kb: v, ..m };
                }
            },
        }
        i = i + 1;
    }
    assert(views(ls@).subrange(0, ls.len() as int) == views(ls@));
    m
}

/// The status report from the text of /proc/swaps and /proc/meminfo and the
/// zram devices found in sysfs.
pub fn status(proc_swaps: &str, zram_devices: Vec<ZramDevice>, meminfo: &str) -> (r: StatusReport)
    ensures
        entries_view(r.swaps@) == swap_rows(body_lines(proc_swaps@)),
        r.zram_devices == zram_devices,
        r.memory == meminfo_of(lines(meminfo@)),
{
    StatusReport {
        swaps: parse_proc_swaps(proc_swaps),
        zram_devices,
        memory: parse_meminfo(meminfo),
    }
}

// ---------------------------------------------------------------------------
// sysfs zram attributes
// ---------------------------------------------------------------------------

/// `s` without leading and trailing `'['` / `']'` (`trim_matches(['[', ']'])`).
pub open spec fn trim_brackets_start(s: Seq<char>) -> Seq<char>
    decreases s.len(),
{
    if s.len() > 0 && (s[0] == '[' || s[0] == ']') {
        trim_brackets_start(s.drop_first())
    } else {
        s
    }
}

pub open spec fn trim_brackets_end(s: Seq<char>) -> Seq<char>
    decreases s.len(),
{
    if s.len() > 0 && (s.last() == '[' || s.last() == ']') {
        trim_brackets_end(s.drop_last())
    } else {
        s
    }
}

pub open spec fn is_bracket(c: char) -> bool {
    c == '[' || c == ']'
}

proof fn lemma_brackets_start(s: Seq<char>, i: int)
    requires
        0 <= i <= s.len(),
        forall|j: int| 0 <= j < i ==> is_bracket(#[trigger] s[j]),
        i == s.len() || !is_bracket(s[i]),
    ensures
        trim_brackets_start(s) == s.subrange(i, s.len() as int),
    decreases i,
{
    if i > 0 {
        let t = s.drop_first();
        assert forall|j: int| 0 <= j < i - 1 implies is_bracket(#[trigger] t[j]) by {
            assert(t[j] == s[j + 1]);
        }
        lemma_brackets_start(t, i - 1);
        assert(t.subrange(i - 1, t.len() as int) == s.subrange(i, s.len() as int));
    } else {
        assert(s.subrange(0, s.len() as int) == s);
    }
}

proof fn lemma_brackets_end(s: Seq<char>, j: int)
    requires
        0 <= j <= s.len(),
        forall|k: int| j <= k < s.len() ==> is_bracket(#[trigger] s[k]),
        j == 0 || !is_bracket(s[j - 1]),
    ensures
        trim_brackets_end(s) == s.subrange(0, j),
    decreases s.len() - j,
{
    if j < s.len() {
        let t = s.drop_last();
        assert forall|k: int| j <= k < t.len() implies is_bracket(#[trigger] t[k]) by {
            assert(t[k] == s[k]);
        }
        lemma_brackets_end(t, j);
        assert(t.subrange(0, j) == s.subrange(0, j));
    } else {
        assert(s.subrange(0, j) == s);
    }
}

/// The active algorithm in a `comp_algorithm` attribute such as
/// `"lzo [zstd] lz4"` read after trimming: its first field stripped of
/// brackets, or `"unknown"` when there is none.
pub open spec fn spec_comp_algorithm(content: Seq<char>) -> Seq<char> {
    let f = split_ws(trim(content));
    let first = if f.len() == 0 {
        "unknown"@
    } else {
        f[0]
    };
    trim_brackets_end(trim_brackets_start(first))
}

pub open spec fn trim_brackets(s: Seq<char>) -> Seq<char> {
    trim_brackets_end(trim_brackets_start(s))
}

/// `trim_matches(['[', ']'])` on characters.
pub fn trim_brackets_of(first: &[char]) -> (r: Vec<char>)
    ensures
        r@ == trim_brackets(first@),
{
    let n = first.len();
    let mut i: usize = 0;
    while i < n && (first[i] == '[' || first[i] == ']')
        invariant
            i <= n == first.len(),
            forall|j: int| 0 <= j < i ==> is_bracket(#[trigger] first@[j]),
        decreases n - i,
    {
        i = i + 1;
    }
    proof {
        lemma_brackets_start(first@, i as int);
    }
    let ghost t1 = first@.subrange(i as int, n as int);
    let mut j: usize = n;
    while j > i && (first[j - 1] == '[' || first[j - 1] == ']')
        invariant
            i <= j <= n == first.len(),
            forall|k: int| j <= k < n ==> is_bracket(#[trigger] first@[k]),
        decreases j,
    {
        j = j - 1;
    }
    proof {
        assert forall|k: int| (j - i) <= k < t1.len() implies is_bracket(#[trigger] t1[k]) by {
            assert(t1[k] == first@[k + i]);
        }
        if j > i {
            assert(t1[j - i - 1] == first@[j - 1]);
        }
        lemma_brackets_end(t1, (j - i) as int);
        assert(t1.subrange(0, (j - i) as int) == first@.subrange(i as int, j as int));
    }
    crate::text::slice_of(first, i, j)
}

pub fn parse_comp_algorithm(content: &str) -> (a: String)
    ensures
        a@ == spec_comp_algorithm(content@),
{
    let c = chars_of(content);
    let t = trim_chars(&c);
    let f = split_ws_of(&t);
    let first = if f.len() == 0 {
        chars_of("unknown")
    } else {
        crate::text::slice_of(&f[0], 0, f[0].len())
    };
    assert(first@ == (if f@.len() == 0 {
        "unknown"@
    } else {
        views(f@)[0]
    })) by {
        if f.len() > 0 {
            assert(f[0]@.subrange(0, f[0]@.len() as int) == f[0]@);
        }
    }
    let r = trim_brackets_of(&first);
    string_of(&r)
}

/// A sysfs numeric attribute: trimmed, parsed as `u64`.
pub fn parse_sysfs_u64(content: &str) -> (v: Option<u64>)
    ensures
        v == parse_u64(trim(content@)),
{
    let c = chars_of(content);
    let t = trim_chars(&c);
    parse_u64_of(&t)
}

pub open spec fn field_u64(f: Seq<Seq<char>>, i: int) -> u64 {
    if i < f.len() {
        u64_or_zero(f[i])
    } else {
        0
    }
}

/// The `mm_stat` fields used: uncompressed data size, compressed size, total
/// memory used, and (fifth field) the number of compression streams; a field
/// that is missing or not a number reads as 0.
pub open spec fn spec_mm_stat(content: Seq<char>) -> (u64, u64, u64, u32) {
    let f = split_ws(content);
    (
        field_u64(f, 0),
        field_u64(f, 1),
        field_u64(f, 2),
        if 4 < f.len() {
            match crate::num::parse_u32(f[4]) {
                Some(v) => v,
                None => 0,
            }
        } else {
            0
        },
    )
}

fn field_u64_of(f: &Vec<Vec<char>>, i: usize) -> (v: u64)
    ensures
        v == field_u64(views(f@), i as int),
{
    if i < f.len() {
        match parse_u64_of(&f[i]) {
            Some(x) => x,
            None => 0,
        }
    } else {
        0
    }
}

pub fn parse_mm_stat(content: &str) -> (r: (u64, u64, u64, u32))
    ensures
        r == spec_mm_stat(content@),
{
    let c = chars_of(content);
    let f = split_ws_of(&c);
    let streams = if 4 < f.len() {
        match crate::num::parse_u32_of(&f[4]) {
            Some(v) => v,
            None => 0,
        }
    } else {
        0
    };
    (field_u64_of(&f, 0), field_u64_of(&f, 1), field_u64_of(&f, 2), streams)
}

// ---------------------------------------------------------------------------
// zram devices
// ---------------------------------------------------------------------------

/// A block device name of a zram device.
pub fn is_zram_block_name(name: &str) -> (r: bool)
    ensures
        r == crate::text::starts_with(name@, "zram"@),
{
    crate::text::starts_with_str(&chars_of(name), "zram")
}

/// The type column of the first `swapon --show=NAME,TYPE --noheadings` line
/// whose name is `path`, mapped to `[SWAP]` for partition and file swap.
pub open spec fn swapon_mount(ls: Seq<Seq<char>>, path: Seq<char>) -> Option<Seq<char>>
    decreases ls.len(),
{
    if ls.len() == 0 {
        None
    } else {
        let parts = split_ws(ls[0]);
        if parts.len() > 0 && parts[0] == path {
            Some(
                if parts.len() > 1 && (parts[1] == "partition"@ || parts[1] == "file"@) {
                    "[SWAP]"@
                } else if parts.len() > 1 {
                    parts[1]
                } else {
                    Seq::empty()
                },
            )
        } else {
            swapon_mount(ls.drop_first(), path)
        }
    }
}

/// Where a zram device is used: from the swapon listing (its text, `None`
/// when swapon failed) when it lists `/dev/<device>`, else `[SWAP]` when the
/// device's initstate reads `1`, else nothing.
pub open spec fn spec_zram_mount(swapon: Option<Seq<char>>, device: Seq<char>, initstate: Option<Seq<char>>) -> Seq<
    char,
> {
    let listed = match swapon {
        Some(out) => swapon_mount(lines(out), "/dev/"@ + device),
        None => None,
    };
    match listed {
        Some(m) => m,
        None => if initstate matches Some(st) && trim(st) == "1"@ {
            "[SWAP]"@
        } else {
            Seq::empty()
        },
    }
}

pub fn detect_zram_mount(swapon: Option<&str>, device: &str, initstate: Option<&str>) -> (m: String)
    ensures
        m@ == spec_zram_mount(
            match swapon {
                Some(s) => Some(s@),
                None => None,
            },
            device@,
            match initstate {
                Some(s) => Some(s@),
                None => None,
            },
        ),
{
    let mut path = String::new();
    push_str(&mut path, "/dev/");
    push_str(&mut path, device);
    let pc = chars_of(path.as_str());
    if let Some(out) = swapon {
        let c = chars_of(out);
        let ls = lines_of(&c);
        let ghost all = views(ls@);
        let mut i: usize = 0;
        assert(all.subrange(0, all.len() as int) =~= all);
        while i < ls.len()
            invariant
                i <= ls.len(),
                all == views(ls@),
                all == lines(out@),
                pc@ == "/dev/"@ + device@,
                swapon_mount(all, pc@) == swapon_mount(all.subrange(i as int, all.len() as int), pc@),
                match swapon {
                    Some(o) => o@ == out@,
                    None => false,
                },
            decreases ls.len() - i,
        {
            let ghost rest = all.subrange(i as int, all.len() as int);
            assert(rest[0] == ls@[i as int]@);
            assert(rest.drop_first() =~= all.subrange(i + 1, all.len() as int));
            let parts = split_ws_of(&ls[i]);
            if parts.len() > 0 && crate::text::chars_eq(&parts[0], &pc) {
                assert(views(parts@)[0] == parts@[0]@);
                if parts.len() > 1 {
                    assert(views(parts@)[1] == parts@[1]@);
                    if eq_str(&parts[1], "partition") || eq_str(&parts[1], "file") {
                        return crate::text::owned("[SWAP]");
                    }
                    return string_of(&parts[1]);
                }
                return String::new();
            }
            if parts.len() > 0 {
                assert(views(parts@)[0] == parts@[0]@);
            }
            i = i + 1;
        }
    }
    if let Some(st) = initstate {
        if eq_str(&trim_chars(&chars_of(st)), "1") {
            return crate::text::owned("[SWAP]");
        }
    }
    String::new()
}

/// A zram device from its sysfs attributes: the active algorithm, the disk
/// size (which must parse, else a parse error naming the attribute), and the
/// `mm_stat` figures.
pub fn zram_device(
    name: &str,
    comp_algorithm: &str,
    disksize: &str,
    mm_stat: &str,
    mount_point: String,
) -> (r: Result<ZramDevice, XzramError>)
    ensures
        parse_u64(trim(disksize@)) is None <==> r is Err,
        r matches Err(e) ==> e is Parse && e->Parse_0@ == "invalid u64 in /sys/block/"@ + name@ + "/disksize"@,
        r matches Ok(d) ==> d.name@ == name@ && d.algorithm@ == spec_comp_algorithm(comp_algorithm@)
            && Some(d.disk_size_bytes) == parse_u64(trim(disksize@)) && (d.data_bytes, d.compressed_bytes, d.total_bytes, d.streams) == spec_mm_stat(mm_stat@)
            && d.mount_point@ == mount_point@,
{
    let disk_size = match parse_sysfs_u64(disksize) {
        Some(v) => v,
        None => {
            let mut m = crate::text::owned("invalid u64 in /sys/block/");
            push_str(&mut m, name);
            push_str(&mut m, "/disksize");
            return Err(XzramError::Parse(m));
        },
    };
    let (data, compr, total, streams) = parse_mm_stat(mm_stat);
    Ok(
        ZramDevice {
            name: crate::text::owned(name),
            algorithm: parse_comp_algorithm(comp_algorithm),
            disk_size_bytes: disk_size,
            data_bytes: data,
            compressed_bytes: compr,
            total_bytes: total,
            streams,
            mount_point,
        },
    )
}

/// String order of names, character by character (the order of their UTF-8
/// bytes).
pub open spec fn name_le(a: Seq<char>, b: Seq<char>) -> bool
    decreases a.len(),
{
    if a.len() == 0 {
        true
    } else if b.len() == 0 {
        false
    } else if a[0] < b[0] {
        true
    } else if a[0] == b[0] {
        name_le(a.drop_first(), b.drop_first())
    } else {
        false
    }
}

pub proof fn lemma_name_le_total(a: Seq<char>, b: Seq<char>)
    ensures
        name_le(a, b) || name_le(b, a),
    decreases a.len(),
{
    if a.len() > 0 && b.len() > 0 && a[0] == b[0] {
        lemma_name_le_total(a.drop_first(), b.drop_first());
    }
}

pub proof fn lemma_name_le_refl(a: Seq<char>)
    ensures
        name_le(a, a),
    decreases a.len(),
{
    if a.len() > 0 {
        lemma_name_le_refl(a.drop_first());
    }
}

pub proof fn lemma_name_le_trans(a: Seq<char>, b: Seq<char>, c: Seq<char>)
    requires
        name_le(a, b),
        name_le(b, c),
    ensures
        name_le(a, c),
    decreases a.len(),
{
    if a.len() > 0 && b.len() > 0 && c.len() > 0 && a[0] == b[0] && b[0] == c[0] {
        lemma_name_le_trans(a.drop_first(), b.drop_first(), c.drop_first());
    }
}

pub(crate) fn name_le_of(a: &[char], b: &[char]) -> (r: bool)
    ensures
        r == name_le(a@, b@),
{
    let mut i: usize = 0;
    assert(a@.subrange(0, a@.len() as int) =~= a@);
    assert(b@.subrange(0, b@.len() as int) =~= b@);
    while i < a.len() && i < b.len() && a[i] == b[i]
        invariant
            i <= a.len(),
            i <= b.len(),
            name_le(a@, b@) == name_le(a@.subrange(i as int, a@.len() as int), b@.subrange(i as int, b@.len() as int)),
        decreases a.len() - i,
    {
        let ghost sa = a@.subrange(i as int, a@.len() as int);
        let ghost sb = b@.subrange(i as int, b@.len() as int);
        assert(sa.drop_first() =~= a@.subrange(i + 1, a@.len() as int));
        assert(sb.drop_first() =~= b@.subrange(i + 1, b@.len() as int));
        i = i + 1;
    }
    let ghost sa = a@.subrange(i as int, a@.len() as int);
    let ghost sb = b@.subrange(i as int, b@.len() as int);
    if i == a.len() {
        return true;
    }
    if i == b.len() {
        return false;
    }
    assert(sa[0] == a@[i as int] && sb[0] == b@[i as int]);
    a[i] < b[i]
}

pub open spec fn sorted_by_name(v: Seq<ZramDevice>) -> bool {
    forall|i: int, j: int| 0 <= i < j < v.len() ==> name_le((#[trigger] v[i]).name@, (#[trigger] v[j]).name@)
}

/// The devices ordered by name (a stable sort).
pub fn sort_devices_by_name(devices: Vec<ZramDevice>) -> (r: Vec<ZramDevice>)
    ensures
        sorted_by_name(r@),
        r@.to_multiset() == devices@.to_multiset(),
{
    let mut out: Vec<ZramDevice> = Vec::new();
    let mut rest = devices;
    let ghost orig = rest@;
    let ghost mut k: int = 0;
    assert(orig.subrange(0, 0) =~= Seq::<ZramDevice>::empty());
    assert(orig.subrange(0, orig.len() as int) =~= orig);
    while rest.len() > 0
        invariant
            0 <= k <= orig.len(),
            rest@ == orig.subrange(k, orig.len() as int),
            sorted_by_name(out@),
            out@.to_multiset() == orig.subrange(0, k).to_multiset(),
        decreases rest.len(),
    {
        let x = rest.remove(0);
        assert(x == orig[k]);
        let xn = chars_of(x.name.as_str());
        let mut p: usize = 0;
        while p < out.len() && name_le_of(&chars_of(out[p].name.as_str()), &xn)
            invariant
                p <= out.len(),
                xn@ == x.name@,
                forall|q: int| 0 <= q < p ==> name_le((#[trigger] out@[q]).name@, x.name@),
            decreases out.len() - p,
        {
            p = p + 1;
        }
        proof {
            if p < out.len() {
                lemma_name_le_total(out@[p as int].name@, x.name@);
            }
            assert forall|i: int, j: int| 0 <= i < j < out@.len() + 1 implies name_le(
                (#[trigger] out@.insert(p as int, x)[i]).name@,
                (#[trigger] out@.insert(p as int, x)[j]).name@,
            ) by {
                let s = out@.insert(p as int, x);
                if j < p {
                    assert(s[i] == out@[i] && s[j] == out@[j]);
                } else if j == p {
                    assert(s[i] == out@[i]);
                } else if i == p {
                    assert(s[j] == out@[j - 1]);
                    if j - 1 == p {
                        lemma_name_le_refl(out@[p as int].name@);
                    }
                    lemma_name_le_trans(x.name@, out@[p as int].name@, out@[j - 1].name@);
                } else if i < p {
                    assert(s[i] == out@[i] && s[j] == out@[j - 1]);
                } else {
                    assert(s[i] == out@[i - 1] && s[j] == out@[j - 1]);
                }
            }
            vstd::seq_lib::to_multiset_insert(out@, p as int, x);
            assert(orig.subrange(0, k + 1) =~= orig.subrange(0, k).push(orig[k]));
            vstd::seq_lib::to_multiset_build(orig.subrange(0, k), orig[k]);
        }
        out.insert(p, x);
        proof {
            k = k + 1;
        }
        assert(rest@ =~= orig.subrange(k, orig.len() as int));
    }
    assert(orig.subrange(0, k) =~= orig);
    out
}

// ---------------------------------------------------------------------------
// Human-readable sizes
// ---------------------------------------------------------------------------

/// The spacing of `f64` values around `b`: 1 below 2^53, doubling with each
/// further binary digit.
pub open spec fn f64_spacing(b: nat) -> nat {
    if b < 0x20_0000_0000_0000 {
        1
    } else if b < 0x40_0000_0000_0000 {
        2
    } else if b < 0x80_0000_0000_0000 {
        4
    } else if b < 0x100_0000_0000_0000 {
        8
    } else if b < 0x200_0000_0000_0000 {
        16
    } else if b < 0x400_0000_0000_0000 {
        32
    } else if b < 0x800_0000_0000_0000 {
        64
    } else if b < 0x1000_0000_0000_0000 {
        128
    } else if b < 0x2000_0000_0000_0000 {
        256
    } else if b < 0x4000_0000_0000_0000 {
        512
    } else if b < 0x8000_0000_0000_0000 {
        1024
    } else {
        2048
    }
}

/// `b as f64`: the nearest value on the `f64` grid, ties to the even multiple.
pub open spec fn f64_of(b: nat) -> nat {
    let u = f64_spacing(b);
    let q = b / u;
    let r = b % u;
    if r * 2 > u || (r * 2 == u && q % 2 == 1) {
        (q + 1) * u
    } else {
        q * u
    }
}

pub open spec fn pow1024(k: nat) -> nat
    decreases k,
{
    if k == 0 {
        1
    } else {
        1024 * pow1024((k - 1) as nat)
    }
}

/// How many times a value of `f` bytes is divided by 1024 (at most 4).
pub open spec fn size_unit(f: nat) -> nat {
    if f >= pow1024(4) {
        4
    } else if f >= pow1024(3) {
        3
    } else if f >= pow1024(2) {
        2
    } else if f >= pow1024(1) {
        1
    } else {
        0
    }
}

/// `num / den` to the nearest integer, ties to even.
pub open spec fn div_round_even(num: nat, den: nat) -> nat {
    let q = num / den;
    let r = num % den;
    if r * 2 > den || (r * 2 == den && q % 2 == 1) {
        q + 1
    } else {
        q
    }
}

pub open spec fn unit_name(k: nat) -> Seq<char> {
    if k == 0 {
        "B"@
    } else if k == 1 {
        "KiB"@
    } else if k == 2 {
        "MiB"@
    } else if k == 3 {
        "GiB"@
    } else {
        "TiB"@
    }
}

/// `bytes` in the largest binary unit up to TiB that it reaches, with one
/// decimal (plain bytes have none), as `f64` arithmetic rounds it.
pub open spec fn spec_format_bytes(bytes: u64) -> Seq<char> {
    let f = f64_of(bytes as nat);
    let k = size_unit(f);
    if k == 0 {
        nat_str(bytes as nat) + " B"@
    } else {
        let t = div_round_even(f * 10, pow1024(k));
        nat_str(t / 10) + "."@ + seq![digit_char(t % 10)] + " "@ + unit_name(k)
    }
}

fn f64_grid(b: u64) -> (f: u128)
    ensures
        f as nat == f64_of(b as nat),
{
    let u: u128 = if b < 0x20_0000_0000_0000 {
        1
    } else if b < 0x40_0000_0000_0000 {
        2
    } else if b < 0x80_0000_0000_0000 {
        4
    } else if b < 0x100_0000_0000_0000 {
        8
    } else if b < 0x200_0000_0000_0000 {
        16
    } else if b < 0x400_0000_0000_0000 {
        32
    } else if b < 0x800_0000_0000_0000 {
        64
    } else if b < 0x1000_0000_0000_0000 {
        128
    } else if b < 0x2000_0000_0000_0000 {
        256
    } else if b < 0x4000_0000_0000_0000 {
        512
    } else if b < 0x8000_0000_0000_0000 {
        1024
    } else {
        2048
    };
    let bb = b as u128;
    let q = bb / u;
    let r = bb % u;
    assert(q <= bb) by (nonlinear_arith)
        requires
            q == bb / u,
            u >= 1,
    ;
    assert((q + 1) * u <= bb + u) by (nonlinear_arith)
        requires
            q == bb / u,
            u >= 1,
    ;
    if r * 2 > u || (r * 2 == u && q % 2 == 1) {
        (q + 1) * u
    } else {
        q * u
    }
}

proof fn lemma_pow1024()
    ensures
        pow1024(0) == 1,
        pow1024(1) == 1024,
        pow1024(2) == 1048576,
        pow1024(3) == 1073741824,
        pow1024(4) == 1099511627776,
{
    reveal_with_fuel(pow1024, 5);
}

/// The size in bytes as a short human-readable text, e.g. `1.0 KiB` or `0 B`.
pub fn format_bytes(bytes: u64) -> (s: String)
    ensures
        s@ == spec_format_bytes(bytes),
{
    proof {
        lemma_pow1024();
    }
    let f = f64_grid(bytes);
    let (k, den): (u64, u128) = if f >= 1099511627776 {
        (4, 1099511627776)
    } else if f >= 1073741824 {
        (3, 1073741824)
    } else if f >= 1048576 {
        (2, 1048576)
    } else if f >= 1024 {
        (1, 1024)
    } else {
        (0, 1)
    };
    let mut s = String::new();
    if k == 0 {
        push_nat(&mut s, bytes);
        push_str(&mut s, " B");
        assert(s@ =~= spec_format_bytes(bytes));
        return s;
    }
    assert(f <= 0x1_0000_0000_0000_0000) by {
        assert(f64_spacing(bytes as nat) <= 2048);
    }
    let num = f * 10;
    let q = num / den;
    let r = num % den;
    let t = if r * 2 > den || (r * 2 == den && q % 2 == 1) {
        q + 1
    } else {
        q
    };
    assert(q * 1024 <= num) by (nonlinear_arith)
        requires
            q == num / den,
            den >= 1024,
    ;
    assert(t <= 0x100_0000_0000_0000);
    push_nat(&mut s, (t / 10) as u64);
    push_str(&mut s, ".");
    push_char(&mut s, digit_char_of((t % 10) as u64));
    push_str(&mut s, " ");
    let name = if k == 1 {
        "KiB"
    } else if k == 2 {
        "MiB"
    } else if k == 3 {
        "GiB"
    } else {
        "TiB"
    };
    push_str(&mut s, name);
    assert(s@ =~= spec_format_bytes(bytes));
    s
}

} // verus!
