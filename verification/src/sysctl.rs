//! vm.* sysctl values: validation, drop-in parsing and rendering.
use vstd::prelude::*;

use crate::error::XzramError;
use crate::num::{lemma_nat_str_digits, lemma_parse_nat_str, nat_str, parse_u32, parse_u32_of, push_nat};
use crate::text::{
    all_plain_lines, chars_of, eq_str, is_ws, lemma_all_plain_lines_append, lemma_key_value_line, lemma_lines_unlines, lemma_unlines_append,
    lemma_unlines_one, lines, lines_of, plain_line, push_str, split_once, split_once_of,
    starts_with, trim, trim_chars, unlines, views,
};

verus! {

/// The four vm.* knobs that the tool manages; `None` leaves a knob alone.
#[derive(Debug, Clone, Copy, PartialEq, Eq)]
pub struct SysctlValues {
    pub swappiness: Option<u32>,
    pub watermark_boost_factor: Option<u32>,
    pub watermark_scale_factor: Option<u32>,
    pub page_cluster: Option<u32>,
}

pub const SWAPPINESS_MAX: u32 = 200;
pub const WATERMARK_BOOST_MAX: u32 = 10000;
pub const WATERMARK_SCALE_MAX: u32 = 10000;
pub const PAGE_CLUSTER_MAX: u32 = 8;

pub open spec fn within(v: Option<u32>, max: u32) -> bool {
    match v {
        Some(x) => x <= max,
        None => true,
    }
}

/// All set knobs lie within the kernel-aligned ranges.
pub open spec fn sysctl_in_range(v: SysctlValues) -> bool {
    &&& within(v.swappiness, SWAPPINESS_MAX)
    &&& within(v.watermark_boost_factor, WATERMARK_BOOST_MAX)
    &&& within(v.watermark_scale_factor, WATERMARK_SCALE_MAX)
    &&& within(v.page_cluster, PAGE_CLUSTER_MAX)
}

pub open spec fn spec_zram_tuning_defaults() -> SysctlValues {
    SysctlValues {
        swappiness: Some(180),
        watermark_boost_factor: Some(0),
        watermark_scale_factor: Some(125),
        page_cluster: Some(0),
    }
}

pub open spec fn empty_sysctl() -> SysctlValues {
    SysctlValues {
        swappiness: None,
        watermark_boost_factor: None,
        watermark_scale_factor: None,
        page_cluster: None,
    }
}

/// The recommended zram tuning: swappiness 180, boost 0, scale 125, page-cluster 0.
pub fn zram_tuning_defaults() -> (v: SysctlValues)
    ensures
        v == spec_zram_tuning_defaults(),
{
    SysctlValues {
        swappiness: Some(180),
        watermark_boost_factor: Some(0),
        watermark_scale_factor: Some(125),
        page_cluster: Some(0),
    }
}

/// The message for a knob `name` out of `0..=max`, having value `v`.
pub open spec fn range_message(name: Seq<char>, max: Seq<char>, v: u32) -> Seq<char> {
    name + " must be 0–"@ + max + " (got "@ + nat_str(v as nat) + ")"@
}

fn range_error(name: &str, max: &str, v: u32) -> (e: XzramError)
    ensures
        e == XzramError::Validation(e->Validation_0),
        e->Validation_0@ == range_message(name@, max@, v),
{
    let mut m = String::new();
    push_str(&mut m, name);
    push_str(&mut m, " must be 0–");
    push_str(&mut m, max);
    push_str(&mut m, " (got ");
    push_nat(&mut m, v as u64);
    push_str(&mut m, ")");
    assert(m@ =~= range_message(name@, max@, v));
    XzramError::Validation(m)
}

/// Which knob, in checking order, is the first out of range.
pub open spec fn validation_failure(v: SysctlValues) -> Option<Seq<char>> {
    if !within(v.swappiness, SWAPPINESS_MAX) {
        Some(range_message("vm.swappiness"@, "200"@, v.swappiness->0))
    } else if !within(v.watermark_boost_factor, WATERMARK_BOOST_MAX) {
        Some(range_message("vm.watermark_boost_factor"@, "10000"@, v.watermark_boost_factor->0))
    } else if !within(v.watermark_scale_factor, WATERMARK_SCALE_MAX) {
        Some(range_message("vm.watermark_scale_factor"@, "10000"@, v.watermark_scale_factor->0))
    } else if !within(v.page_cluster, PAGE_CLUSTER_MAX) {
        Some(range_message("vm.page-cluster"@, "8"@, v.page_cluster->0))
    } else {
        None
    }
}

/// Checks the knobs against their ranges: swappiness 0–200, the watermark
/// factors 0–10000, page-cluster 0–8. The first knob out of range is reported.
pub fn validate_sysctl_values(values: &SysctlValues) -> (r: Result<(), XzramError>)
    ensures
        r is Ok <==> sysctl_in_range(*values),
        r is Err ==> r->Err_0 is Validation && validation_failure(*values) == Some(
            r->Err_0->Validation_0@,
        ),
        validation_failure(*values) is None <==> sysctl_in_range(*values),
{
    if let Some(v) = values.swappiness {
        if v > 200 {
            return Err(range_error("vm.swappiness", "200", v));
        }
    }
    if let Some(v) = values.watermark_boost_factor {
        if v > 10000 {
            return Err(range_error("vm.watermark_boost_factor", "10000", v));
        }
    }
    if let Some(v) = values.watermark_scale_factor {
        if v > 10000 {
            return Err(range_error("vm.watermark_scale_factor", "10000", v));
        }
    }
    if let Some(v) = values.page_cluster {
        if v > 8 {
            return Err(range_error("vm.page-cluster", "8", v));
        }
    }
    Ok(())
}

/// `s` with every `from` replaced by `to`.
pub open spec fn replace_char(s: Seq<char>, from: char, to: char) -> Seq<char> {
    s.map_values(|c: char| if c == from { to } else { c })
}

/// Maps a dotted sysctl name to its `/proc/sys` path (`vm.page-cluster` → `/proc/sys/vm/page-cluster`).
pub fn proc_sys_path(key: &str) -> (p: String)
    ensures
        p@ == "/proc/sys/"@ + replace_char(key@, '.', '/'),
{
    let k = chars_of(key);
    let mut p = String::new();
    push_str(&mut p, "/proc/sys/");
    let ghost p0 = p@;
    let mut i: usize = 0;
    while i < k.len()
        invariant
            i <= k.len(),
            p@ == p0 + replace_char(k@.subrange(0, i as int), '.', '/'),
        decreases k.len() - i,
    {
        let c = if k[i] == '.' {
            '/'
        } else {
            k[i]
        };
        crate::text::push_char(&mut p, c);
        i = i + 1;
        assert(p@ =~= p0 + replace_char(k@.subrange(0, i as int), '.', '/'));
    }
    assert(k@.subrange(0, k.len() as int) == k@);
    p
}

/// A value as read from `/proc/sys`: trimmed, then parsed as `u32`.
pub open spec fn spec_sysctl_value(raw: Seq<char>) -> Option<u32> {
    parse_u32(trim(raw))
}

/// Parses the content of one `/proc/sys` file.
pub fn read_sysctl_value(raw: &str) -> (v: Option<u32>)
    ensures
        v == spec_sysctl_value(raw@),
{
    let c = chars_of(raw);
    let t = trim_chars(&c);
    parse_u32_of(&t)
}

pub open spec fn opt_value(raw: Option<Seq<char>>) -> Option<u32> {
    match raw {
        Some(r) => spec_sysctl_value(r),
        None => None,
    }
}

fn read_opt(raw: Option<&str>) -> (v: Option<u32>)
    ensures
        v == opt_value(match raw {
            Some(r) => Some(r@),
            None => None,
        }),
{
    match raw {
        Some(r) => read_sysctl_value(r),
        None => None,
    }
}

/// The live values, from the contents of the four `/proc/sys` files
/// (`None` where a file could not be read).
pub fn show(
    swappiness: Option<&str>,
    watermark_boost_factor: Option<&str>,
    watermark_scale_factor: Option<&str>,
    page_cluster: Option<&str>,
) -> (v: SysctlValues)
    ensures
        v.swappiness == opt_value(
            match swappiness {
                Some(r) => Some(r@),
                None => None,
            },
        ),
        v.watermark_boost_factor == opt_value(
            match watermark_boost_factor {
                Some(r) => Some(r@),
                None => None,
            },
        ),
        v.watermark_scale_factor == opt_value(
            match watermark_scale_factor {
                Some(r) => Some(r@),
                None => None,
            },
        ),
        v.page_cluster == opt_value(
            match page_cluster {
                Some(r) => Some(r@),
                None => None,
            },
        ),
{
    SysctlValues {
        swappiness: read_opt(swappiness),
        watermark_boost_factor: read_opt(watermark_boost_factor),
        watermark_scale_factor: read_opt(watermark_scale_factor),
        page_cluster: read_opt(page_cluster),
    }
}

/// The effect of one drop-in line on the values read so far: blank lines,
/// comments, lines without `=`, values that are not a `u32` and unknown keys
/// change nothing.
pub open spec fn drop_in_line(v: SysctlValues, line: Seq<char>) -> SysctlValues {
    let l = trim(line);
    if l.len() == 0 || l[0] == '#' {
        v
    } else {
        match split_once(l, '=') {
            None => v,
            Some((k, raw)) => {
                let key = trim(k);
                match parse_u32(trim(raw)) {
                    None => v,
                    Some(x) => if key == "vm.swappiness"@ {
                        SysctlValues { swappiness: Some(x), ..v }
                    } else if key == "vm.watermark_boost_factor"@ {
                        SysctlValues { watermark_boost_factor: Some(x), ..v }
                    } else if key == "vm.watermark_scale_factor"@ {
                        SysctlValues { watermark_scale_factor: Some(x), ..v }
                    } else if key == "vm.page-cluster"@ {
                        SysctlValues { page_cluster: Some(x), ..v }
                    } else {
                        v
                    },
                }
            },
        }
    }
}

/// The values that a sequence of drop-in lines sets (later lines win).
pub open spec fn drop_in_values(ls: Seq<Seq<char>>) -> SysctlValues
    decreases ls.len(),
{
    if ls.len() == 0 {
        empty_sysctl()
    } else {
        drop_in_line(drop_in_values(ls.drop_last()), ls.last())
    }
}

fn apply_drop_in_line(v: SysctlValues, line: &[char]) -> (r: SysctlValues)
    ensures
        r == drop_in_line(v, line@),
{
    let l = trim_chars(line);
    if l.len() == 0 || l[0] == '#' {
        return v;
    }
    match split_once_of(&l, '=') {
        None => v,
        Some((k, raw)) => {
            let key = trim_chars(&k);
            let rt = trim_chars(&raw);
            match parse_u32_of(&rt) {
                None => v,
                Some(x) => {
                    if eq_str(&key, "vm.swappiness") {
                        SysctlValues { swappiness: Some(x), ..v }
                    } else if eq_str(&key, "vm.watermark_boost_factor") {
                        SysctlValues { watermark_boost_factor: Some(x), ..v }
                    } else if eq_str(&key, "vm.watermark_scale_factor") {
                        SysctlValues { watermark_scale_factor: Some(x), ..v }
                    } else if eq_str(&key, "vm.page-cluster") {
                        SysctlValues { page_cluster: Some(x), ..v }
                    } else {
                        v
                    }
                },
            }
        },
    }
}

/// Parses the known keys of an existing `99-xzram.conf` drop-in (pass the
/// empty text when the file cannot be read).
pub fn read_drop_in(content: &str) -> (v: SysctlValues)
    ensures
        v == drop_in_values(lines(content@)),
{
    let c = chars_of(content);
    let ls = lines_of(&c);
    let mut v = empty_sysctl_values();
    let mut i: usize = 0;
    while i < ls.len()
        invariant
            i <= ls.len(),
            views(ls@) == lines(c@),
            v == drop_in_values(views(ls@).subrange(0, i as int)),
        decreases ls.len() - i,
    {
        let ghost pre = views(ls@).subrange(0, (i + 1) as int);
        assert(pre.drop_last() == views(ls@).subrange(0, i as int));
        assert(pre.last() == ls@[i as int]@);
        v = apply_drop_in_line(v, &ls[i]);
        i = i + 1;
    }
    assert(views(ls@).subrange(0, ls.len() as int) == views(ls@));
    v
}

fn empty_sysctl_values() -> (v: SysctlValues)
    ensures
        v == empty_sysctl(),
{
    SysctlValues {
        swappiness: None,
        watermark_boost_factor: None,
        watermark_scale_factor: None,
        page_cluster: None,
    }
}

pub open spec fn or_else(a: Option<u32>, b: Option<u32>) -> Option<u32> {
    match a {
        Some(x) => Some(x),
        None => b,
    }
}

pub open spec fn spec_overlay(base: SysctlValues, overlay: SysctlValues) -> SysctlValues {
    SysctlValues {
        swappiness: or_else(overlay.swappiness, base.swappiness),
        watermark_boost_factor: or_else(overlay.watermark_boost_factor, base.watermark_boost_factor),
        watermark_scale_factor: or_else(overlay.watermark_scale_factor, base.watermark_scale_factor),
        page_cluster: or_else(overlay.page_cluster, base.page_cluster),
    }
}

/// Knobs set in `overlay` win; the others keep the value from `base`.
pub fn merge_sysctl_overlay(base: SysctlValues, overlay: &SysctlValues) -> (r: SysctlValues)
    ensures
        r == spec_overlay(base, *overlay),
{
    SysctlValues {
        swappiness: if overlay.swappiness.is_some() {
            overlay.swappiness
        } else {
            base.swappiness
        },
        watermark_boost_factor: if overlay.watermark_boost_factor.is_some() {
            overlay.watermark_boost_factor
        } else {
            base.watermark_boost_factor
        },
        watermark_scale_factor: if overlay.watermark_scale_factor.is_some() {
            overlay.watermark_scale_factor
        } else {
            base.watermark_scale_factor
        },
        page_cluster: if overlay.page_cluster.is_some() {
            overlay.page_cluster
        } else {
            base.page_cluster
        },
    }
}

pub open spec fn knob_line(name: Seq<char>, v: Option<u32>) -> Seq<char> {
    match v {
        Some(x) => name + " = "@ + nat_str(x as nat) + "\n"@,
        None => Seq::empty(),
    }
}

/// The drop-in text for `v`: one `key = value` line per set knob, in the
/// fixed order swappiness, boost, scale, page-cluster.
pub open spec fn drop_in_text(v: SysctlValues) -> Seq<char> {
    knob_line("vm.swappiness"@, v.swappiness) + knob_line(
        "vm.watermark_boost_factor"@,
        v.watermark_boost_factor,
    ) + knob_line("vm.watermark_scale_factor"@, v.watermark_scale_factor) + knob_line(
        "vm.page-cluster"@,
        v.page_cluster,
    )
}

pub open spec fn any_set(v: SysctlValues) -> bool {
    v.swappiness is Some || v.watermark_boost_factor is Some || v.watermark_scale_factor is Some
        || v.page_cluster is Some
}

fn push_knob(s: &mut String, name: &str, v: Option<u32>)
    ensures
        final(s)@ == old(s)@ + knob_line(name@, v),
{
    if let Some(x) = v {
        push_str(s, name);
        push_str(s, " = ");
        push_nat(s, x as u64);
        push_str(s, "\n");
        assert(final(s)@ =~= old(s)@ + knob_line(name@, v));
    } else {
        assert(old(s)@ + Seq::<char>::empty() == old(s)@);
    }
}

/// The outcome of writing `values` into the drop-in whose current text is
/// `existing` (empty when absent).
pub open spec fn spec_set(existing: Seq<char>, values: SysctlValues) -> Result<
    Seq<char>,
    Seq<char>,
> {
    let merged = spec_overlay(drop_in_values(lines(existing)), values);
    if !sysctl_in_range(values) {
        Err(validation_failure(values)->0)
    } else if !sysctl_in_range(merged) {
        Err(validation_failure(merged)->0)
    } else if !any_set(merged) {
        Err("No sysctl values provided"@)
    } else {
        Ok(drop_in_text(merged))
    }
}

/// Computes the new `99-xzram.conf` text: the knobs in `values` overlaid on
/// those already in the drop-in `existing`. Every error is a validation error.
pub fn set(existing: &str, values: &SysctlValues) -> (r: Result<String, XzramError>)
    ensures
        match r {
            Ok(text) => spec_set(existing@, *values) == Ok::<Seq<char>, Seq<char>>(text@),
            Err(e) => e is Validation && spec_set(existing@, *values) == Err::<
                Seq<char>,
                Seq<char>,
            >(e->Validation_0@),
        },
{
    if let Err(e) = validate_sysctl_values(values) {
        return Err(e);
    }
    let current = read_drop_in(existing);
    let merged = merge_sysctl_overlay(current, values);
    if let Err(e) = validate_sysctl_values(&merged) {
        return Err(e);
    }
    if merged.swappiness.is_none() && merged.watermark_boost_factor.is_none()
        && merged.watermark_scale_factor.is_none() && merged.page_cluster.is_none() {
        return Err(XzramError::Validation(crate::text::owned("No sysctl values provided")));
    }
    let mut text = String::new();
    push_knob(&mut text, "vm.swappiness", merged.swappiness);
    push_knob(&mut text, "vm.watermark_boost_factor", merged.watermark_boost_factor);
    push_knob(&mut text, "vm.watermark_scale_factor", merged.watermark_scale_factor);
    push_knob(&mut text, "vm.page-cluster", merged.page_cluster);
    assert(text@ =~= drop_in_text(merged));
    Ok(text)
}

// ---------------------------------------------------------------------------
// Reading back the drop-in
// ---------------------------------------------------------------------------

pub open spec fn knob_lines(name: Seq<char>, v: Option<u32>) -> Seq<Seq<char>> {
    match v {
        Some(x) => seq![name + " = "@ + nat_str(x as nat)],
        None => Seq::empty(),
    }
}

pub open spec fn drop_in_lines(v: SysctlValues) -> Seq<Seq<char>> {
    knob_lines("vm.swappiness"@, v.swappiness) + knob_lines("vm.watermark_boost_factor"@, v.watermark_boost_factor)
        + knob_lines("vm.watermark_scale_factor"@, v.watermark_scale_factor) + knob_lines(
        "vm.page-cluster"@,
        v.page_cluster,
    )
}

/// The knobs read from the lines `ls`, starting from `v`.
pub open spec fn drop_in_fold(v: SysctlValues, ls: Seq<Seq<char>>) -> SysctlValues
    decreases ls.len(),
{
    if ls.len() == 0 {
        v
    } else {
        drop_in_line(drop_in_fold(v, ls.drop_last()), ls.last())
    }
}

proof fn lemma_drop_in_fold_values(ls: Seq<Seq<char>>)
    ensures
        drop_in_values(ls) == drop_in_fold(empty_sysctl(), ls),
    decreases ls.len(),
{
    if ls.len() > 0 {
        lemma_drop_in_fold_values(ls.drop_last());
    }
}

proof fn lemma_drop_in_fold_append(v: SysctlValues, a: Seq<Seq<char>>, b: Seq<Seq<char>>)
    ensures
        drop_in_fold(v, a + b) == drop_in_fold(drop_in_fold(v, a), b),
    decreases b.len(),
{
    if b.len() == 0 {
        assert(a + b =~= a);
    } else {
        assert((a + b).drop_last() =~= a + b.drop_last());
        assert((a + b).last() == b.last());
        lemma_drop_in_fold_append(v, a, b.drop_last());
    }
}

proof fn lemma_knob_names()
    ensures
        "vm.swappiness"@ != "vm.watermark_boost_factor"@,
        "vm.swappiness"@ != "vm.watermark_scale_factor"@,
        "vm.swappiness"@ != "vm.page-cluster"@,
        "vm.watermark_boost_factor"@ != "vm.watermark_scale_factor"@,
        "vm.watermark_boost_factor"@ != "vm.page-cluster"@,
        "vm.watermark_scale_factor"@ != "vm.page-cluster"@,
{
    reveal_strlit("vm.swappiness");
    reveal_strlit("vm.watermark_boost_factor");
    reveal_strlit("vm.watermark_scale_factor");
    reveal_strlit("vm.page-cluster");
    assert("vm.swappiness"@.len() != "vm.watermark_boost_factor"@.len());
    assert("vm.swappiness"@.len() != "vm.watermark_scale_factor"@.len());
    assert("vm.watermark_boost_factor"@[13] != "vm.watermark_scale_factor"@[13]);
}

/// A knob name as `drop_in_line` finds it again.
pub open spec fn knob_name(name: Seq<char>) -> bool {
    &&& name.len() > 0
    &&& name[0] == 'v'
    &&& !is_ws(name.last())
    &&& forall|i: int| 0 <= i < name.len() ==> name[i] != '=' && name[i] != '\n'
}

proof fn lemma_knob_names_plain()
    ensures
        knob_name("vm.swappiness"@),
        knob_name("vm.watermark_boost_factor"@),
        knob_name("vm.watermark_scale_factor"@),
        knob_name("vm.page-cluster"@),
{
    reveal_strlit("vm.swappiness");
    reveal_strlit("vm.watermark_boost_factor");
    reveal_strlit("vm.watermark_scale_factor");
    reveal_strlit("vm.page-cluster");
}

/// The line of a knob reads back as that knob's value.
proof fn lemma_knob_line(v: SysctlValues, name: Seq<char>, x: u32)
    requires
        knob_name(name),
    ensures
        plain_line(name + " = "@ + nat_str(x as nat)),
        drop_in_line(v, name + " = "@ + nat_str(x as nat)) == if name == "vm.swappiness"@ {
            SysctlValues { swappiness: Some(x), ..v }
        } else if name == "vm.watermark_boost_factor"@ {
            SysctlValues { watermark_boost_factor: Some(x), ..v }
        } else if name == "vm.watermark_scale_factor"@ {
            SysctlValues { watermark_scale_factor: Some(x), ..v }
        } else if name == "vm.page-cluster"@ {
            SysctlValues { page_cluster: Some(x), ..v }
        } else {
            v
        },
{
    reveal_strlit(" = ");
    let d = nat_str(x as nat);
    lemma_nat_str_digits(x as nat);
    lemma_parse_nat_str(x);
    assert(crate::num::is_digit(d[0]));
    assert(crate::num::is_digit(d[d.len() - 1]));
    lemma_key_value_line(name, d);
    let line = name + " = "@ + d;
    assert(line.last() == d.last());
    assert forall|i: int| 0 <= i < line.len() implies line[i] != '\n' by {
        if i < name.len() {
            assert(line[i] == name[i]);
        } else if i >= name.len() + 3 {
            assert(line[i] == d[i - name.len() - 3]);
            assert(crate::num::is_digit(d[i - name.len() - 3]));
        }
    }
}

proof fn lemma_knob_fold(v: SysctlValues, name: Seq<char>, x: Option<u32>)
    requires
        knob_name(name),
    ensures
        all_plain_lines(knob_lines(name, x)),
        drop_in_fold(v, knob_lines(name, x)) == match x {
            Some(y) => drop_in_line(v, name + " = "@ + nat_str(y as nat)),
            None => v,
        },
{
    reveal_with_fuel(drop_in_fold, 2);
    match x {
        Some(y) => {
            lemma_knob_line(v, name, y);
            assert(knob_lines(name, x).drop_last() =~= Seq::<Seq<char>>::empty());
        },
        None => {
            assert(knob_lines(name, x) =~= Seq::<Seq<char>>::empty());
        },
    }
}

proof fn lemma_drop_in_text_lines(v: SysctlValues)
    ensures
        drop_in_text(v) == unlines(drop_in_lines(v)),
{
    reveal_strlit("\n");
    let k1 = knob_lines("vm.swappiness"@, v.swappiness);
    let k2 = knob_lines("vm.watermark_boost_factor"@, v.watermark_boost_factor);
    let k3 = knob_lines("vm.watermark_scale_factor"@, v.watermark_scale_factor);
    let k4 = knob_lines("vm.page-cluster"@, v.page_cluster);
    lemma_unlines_append(k1, k2);
    lemma_unlines_append(k1 + k2, k3);
    lemma_unlines_append(k1 + k2 + k3, k4);
    lemma_knob_text("vm.swappiness"@, v.swappiness);
    lemma_knob_text("vm.watermark_boost_factor"@, v.watermark_boost_factor);
    lemma_knob_text("vm.watermark_scale_factor"@, v.watermark_scale_factor);
    lemma_knob_text("vm.page-cluster"@, v.page_cluster);
}

proof fn lemma_knob_text(name: Seq<char>, x: Option<u32>)
    ensures
        unlines(knob_lines(name, x)) == knob_line(name, x),
{
    reveal_strlit("\n");
    match x {
        Some(y) => {
            lemma_unlines_one(name + " = "@ + nat_str(y as nat));
            assert(name + " = "@ + nat_str(y as nat) + "\n"@ =~= name + " = "@ + nat_str(y as nat) + seq!['\n']);
        },
        None => {
            assert(unlines(knob_lines(name, x)) =~= Seq::<char>::empty());
        },
    }
}

/// Reading the drop-in text written for `v` gives back `v`.
pub proof fn lemma_drop_in_roundtrip(v: SysctlValues)
    ensures
        drop_in_values(lines(drop_in_text(v))) == v,
{
    lemma_knob_names();
    lemma_knob_names_plain();
    let k1 = knob_lines("vm.swappiness"@, v.swappiness);
    let k2 = knob_lines("vm.watermark_boost_factor"@, v.watermark_boost_factor);
    let k3 = knob_lines("vm.watermark_scale_factor"@, v.watermark_scale_factor);
    let k4 = knob_lines("vm.page-cluster"@, v.page_cluster);
    let e = empty_sysctl();
    lemma_knob_fold(e, "vm.swappiness"@, v.swappiness);
    let s1 = drop_in_fold(e, k1);
    lemma_knob_fold(s1, "vm.watermark_boost_factor"@, v.watermark_boost_factor);
    let s2 = drop_in_fold(s1, k2);
    lemma_knob_fold(s2, "vm.watermark_scale_factor"@, v.watermark_scale_factor);
    let s3 = drop_in_fold(s2, k3);
    lemma_knob_fold(s3, "vm.page-cluster"@, v.page_cluster);
    if let Some(y) = v.swappiness {
        lemma_knob_line(e, "vm.swappiness"@, y);
    }
    if let Some(y) = v.watermark_boost_factor {
        lemma_knob_line(s1, "vm.watermark_boost_factor"@, y);
    }
    if let Some(y) = v.watermark_scale_factor {
        lemma_knob_line(s2, "vm.watermark_scale_factor"@, y);
    }
    if let Some(y) = v.page_cluster {
        lemma_knob_line(s3, "vm.page-cluster"@, y);
    }
    lemma_all_plain_lines_append(k1, k2);
    lemma_all_plain_lines_append(k1 + k2, k3);
    lemma_all_plain_lines_append(k1 + k2 + k3, k4);
    lemma_drop_in_text_lines(v);
    lemma_lines_unlines(drop_in_lines(v));
    lemma_drop_in_fold_values(drop_in_lines(v));
    lemma_drop_in_fold_append(e, k1, k2);
    lemma_drop_in_fold_append(e, k1 + k2, k3);
    lemma_drop_in_fold_append(e, k1 + k2 + k3, k4);
}

/// Writing knobs into the drop-in and reading it back gives the knobs that
/// were there, overlaid with those written.
pub proof fn lemma_set_then_read(existing: Seq<char>, values: SysctlValues)
    requires
        spec_set(existing, values) is Ok,
    ensures
        drop_in_values(lines(spec_set(existing, values)->Ok_0)) == spec_overlay(
            drop_in_values(lines(existing)),
            values,
        ),
{
    lemma_drop_in_roundtrip(spec_overlay(drop_in_values(lines(existing)), values));
}

} // verus!
