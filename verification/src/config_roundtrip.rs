//! Reading back a written zram-generator.conf: the rendered text, parsed,
//! gives back the device sections it was rendered from.
use vstd::prelude::*;

use crate::apply::types::ZramConfigView;
use crate::config::{
    conf_line, conf_state, new_section, opt_line, priority_line, section_text, sections_text,
    set_key, spec_parse_conf, spec_render_conf, ParseState,
};
use crate::num::{int_str, lemma_nat_str_digits, lemma_parse_int_str, nat_str};
use crate::status::{trim_brackets, trim_brackets_end, trim_brackets_start};
use crate::text::{
    all_plain_lines, is_ws, lemma_all_plain_lines_append, lemma_key_value_line, lemma_lines_unlines,
    lemma_trim_unpadded, lemma_unlines_append, lemma_unlines_one, plain_line, trim, unlines,
};
use crate::validation::{is_unsafe_value_char, valid_device_name, valid_opt_value, valid_value};

verus! {

/// A device section whose rendering parses back to it: a valid device name
/// and valid values, as validation defines them.
pub open spec fn renders_back(d: ZramConfigView) -> bool {
    &&& valid_device_name(d.device)
    &&& valid_opt_value(d.zram_size)
    &&& valid_opt_value(d.zram_resident_limit)
    &&& valid_opt_value(d.compression_algorithm)
    &&& valid_opt_value(d.fs_type)
    &&& valid_opt_value(d.mount_point)
}

pub open spec fn opt_lines(key: Seq<char>, v: Option<Seq<char>>) -> Seq<Seq<char>> {
    match v {
        Some(x) => seq![key + " = "@ + x],
        None => Seq::empty(),
    }
}

pub open spec fn priority_lines(p: Option<i32>) -> Seq<Seq<char>> {
    match p {
        Some(x) => seq!["swap-priority"@ + " = "@ + int_str(x as int)],
        None => Seq::empty(),
    }
}

/// The lines of one rendered section.
pub open spec fn section_lines(d: ZramConfigView) -> Seq<Seq<char>> {
    seq!["["@ + d.device + "]"@] + opt_lines("zram-size"@, d.zram_size) + opt_lines(
        "zram-resident-limit"@,
        d.zram_resident_limit,
    ) + opt_lines("compression-algorithm"@, d.compression_algorithm) + priority_lines(d.swap_priority)
        + opt_lines("fs-type"@, d.fs_type) + opt_lines("mount-point"@, d.mount_point) + seq![
        Seq::<char>::empty(),
    ]
}

pub open spec fn all_section_lines(ds: Seq<ZramConfigView>) -> Seq<Seq<char>>
    decreases ds.len(),
{
    if ds.len() == 0 {
        Seq::empty()
    } else {
        all_section_lines(ds.drop_last()) + section_lines(ds.last())
    }
}

// ---------------------------------------------------------------------------
// The rendered text as lines
// ---------------------------------------------------------------------------

proof fn lemma_unlines_opt(key: Seq<char>, v: Option<Seq<char>>)
    ensures
        unlines(opt_lines(key, v)) == opt_line(key, v),
{
    match v {
        Some(x) => {
            lemma_unlines_one(key + " = "@ + x);
            reveal_strlit("\n");
            assert(key + " = "@ + x + "\n"@ =~= key + " = "@ + x + seq!['\n']);
        },
        None => {
            assert(unlines(opt_lines(key, v)) =~= Seq::<char>::empty());
        },
    }
}

proof fn lemma_unlines_priority(p: Option<i32>)
    ensures
        unlines(priority_lines(p)) == priority_line(p),
{
    match p {
        Some(x) => {
            lemma_unlines_one("swap-priority"@ + " = "@ + int_str(x as int));
            reveal_strlit("\n");
            reveal_strlit("swap-priority = ");
            reveal_strlit("swap-priority");
            reveal_strlit(" = ");
            assert("swap-priority = "@ =~= "swap-priority"@ + " = "@);
            assert("swap-priority = "@ + int_str(x as int) + "\n"@ =~= "swap-priority"@ + " = "@ + int_str(
                x as int,
            ) + seq!['\n']);
        },
        None => {
            assert(unlines(priority_lines(p)) =~= Seq::<char>::empty());
        },
    }
}

proof fn lemma_section_text(d: ZramConfigView)
    ensures
        section_text(d) == unlines(section_lines(d)),
{
    let h = seq!["["@ + d.device + "]"@];
    let o1 = opt_lines("zram-size"@, d.zram_size);
    let o2 = opt_lines("zram-resident-limit"@, d.zram_resident_limit);
    let o3 = opt_lines("compression-algorithm"@, d.compression_algorithm);
    let p = priority_lines(d.swap_priority);
    let o5 = opt_lines("fs-type"@, d.fs_type);
    let o6 = opt_lines("mount-point"@, d.mount_point);
    let e = seq![Seq::<char>::empty()];
    lemma_unlines_append(h, o1);
    lemma_unlines_append(h + o1, o2);
    lemma_unlines_append(h + o1 + o2, o3);
    lemma_unlines_append(h + o1 + o2 + o3, p);
    lemma_unlines_append(h + o1 + o2 + o3 + p, o5);
    lemma_unlines_append(h + o1 + o2 + o3 + p + o5, o6);
    lemma_unlines_append(h + o1 + o2 + o3 + p + o5 + o6, e);
    lemma_unlines_one("["@ + d.device + "]"@);
    lemma_unlines_one(Seq::<char>::empty());
    lemma_unlines_opt("zram-size"@, d.zram_size);
    lemma_unlines_opt("zram-resident-limit"@, d.zram_resident_limit);
    lemma_unlines_opt("compression-algorithm"@, d.compression_algorithm);
    lemma_unlines_priority(d.swap_priority);
    lemma_unlines_opt("fs-type"@, d.fs_type);
    lemma_unlines_opt("mount-point"@, d.mount_point);
    reveal_strlit("]\n");
    reveal_strlit("]");
    reveal_strlit("\n");
    assert("["@ + d.device + "]\n"@ =~= "["@ + d.device + "]"@ + seq!['\n']);
    assert(Seq::<char>::empty() + seq!['\n'] =~= "\n"@);
    assert(section_text(d) =~= unlines(section_lines(d)));
}

proof fn lemma_sections_text(ds: Seq<ZramConfigView>)
    ensures
        sections_text(ds) == unlines(all_section_lines(ds)),
    decreases ds.len(),
{
    if ds.len() == 0 {
        assert(unlines(all_section_lines(ds)) =~= Seq::<char>::empty());
    } else {
        lemma_sections_text(ds.drop_last());
        lemma_section_text(ds.last());
        lemma_unlines_append(all_section_lines(ds.drop_last()), section_lines(ds.last()));
    }
}

proof fn lemma_render_lines(ds: Seq<ZramConfigView>)
    ensures
        spec_render_conf(ds) == unlines(seq!["# Managed by xzram"@] + all_section_lines(ds)),
{
    lemma_sections_text(ds);
    lemma_unlines_append(seq!["# Managed by xzram"@], all_section_lines(ds));
    lemma_unlines_one("# Managed by xzram"@);
    reveal_strlit("# Managed by xzram\n");
    reveal_strlit("# Managed by xzram");
    assert("# Managed by xzram\n"@ =~= "# Managed by xzram"@ + seq!['\n']);
}

// ---------------------------------------------------------------------------
// The lines are plain
// ---------------------------------------------------------------------------

/// A key that the parser finds again: no `=`, and a first character that
/// starts neither a comment nor a section.
pub open spec fn plain_key(k: Seq<char>) -> bool {
    &&& k.len() > 0
    &&& !is_ws(k[0])
    &&& !is_ws(k.last())
    &&& k[0] != '#'
    &&& k[0] != '['
    &&& forall|i: int| 0 <= i < k.len() ==> k[i] != '=' && k[i] != '\n'
}

/// A value that the parser reads back unchanged.
pub open spec fn plain_value(v: Seq<char>) -> bool {
    &&& v.len() > 0
    &&& !is_ws(v[0])
    &&& !is_ws(v.last())
    &&& forall|i: int| 0 <= i < v.len() ==> v[i] != '\n'
}

proof fn lemma_valid_value_plain(v: Seq<char>)
    requires
        valid_value(v),
    ensures
        plain_value(v),
{
    assert forall|i: int| 0 <= i < v.len() implies v[i] != '\n' by {
        assert(!is_unsafe_value_char(v[i]));
    }
}

proof fn lemma_int_str_plain(x: i32)
    ensures
        plain_value(int_str(x as int)),
{
    if x < 0 {
        let b = nat_str((0 - x) as nat);
        lemma_nat_str_digits((0 - x) as nat);
        let s = seq!['-'] + b;
        assert(s.last() == b.last());
        assert(crate::num::is_digit(b[b.len() - 1]));
        assert forall|i: int| 0 <= i < s.len() implies s[i] != '\n' by {
            if i > 0 {
                assert(s[i] == b[i - 1]);
                assert(crate::num::is_digit(b[i - 1]));
            }
        }
    } else {
        let s = nat_str(x as nat);
        lemma_nat_str_digits(x as nat);
        assert(crate::num::is_digit(s[0]));
        assert(crate::num::is_digit(s[s.len() - 1]));
        assert forall|i: int| 0 <= i < s.len() implies s[i] != '\n' by {
            assert(crate::num::is_digit(s[i]));
        }
    }
}

proof fn lemma_key_line_plain(key: Seq<char>, v: Seq<char>)
    requires
        plain_key(key),
        plain_value(v),
    ensures
        plain_line(key + " = "@ + v),
{
    reveal_strlit(" = ");
    let l = key + " = "@ + v;
    assert(l.last() == v.last());
    assert forall|i: int| 0 <= i < l.len() implies l[i] != '\n' by {
        if i < key.len() {
            assert(l[i] == key[i]);
        } else if i >= key.len() + 3 {
            assert(l[i] == v[i - key.len() - 3]);
        }
    }
}

proof fn lemma_keys_plain()
    ensures
        plain_key("zram-size"@),
        plain_key("zram-resident-limit"@),
        plain_key("compression-algorithm"@),
        plain_key("swap-priority"@),
        plain_key("fs-type"@),
        plain_key("mount-point"@),
{
    reveal_strlit("zram-size");
    reveal_strlit("zram-resident-limit");
    reveal_strlit("compression-algorithm");
    reveal_strlit("swap-priority");
    reveal_strlit("fs-type");
    reveal_strlit("mount-point");
}

proof fn lemma_opt_lines_plain(key: Seq<char>, v: Option<Seq<char>>)
    requires
        plain_key(key),
        valid_opt_value(v),
    ensures
        all_plain_lines(opt_lines(key, v)),
{
    if let Some(x) = v {
        lemma_valid_value_plain(x);
        lemma_key_line_plain(key, x);
        assert(opt_lines(key, v)[0] == key + " = "@ + x);
    }
}

proof fn lemma_section_plain(d: ZramConfigView)
    requires
        renders_back(d),
    ensures
        all_plain_lines(section_lines(d)),
{
    lemma_keys_plain();
    reveal_strlit("[");
    reveal_strlit("]");
    let hl = "["@ + d.device + "]"@;
    assert(hl.last() == ']');
    assert forall|i: int| 0 <= i < hl.len() implies hl[i] != '\n' by {
        if 0 < i < hl.len() - 1 {
            assert(hl[i] == d.device[i - 1]);
        }
    }
    let h = seq![hl];
    assert(all_plain_lines(h));
    let o1 = opt_lines("zram-size"@, d.zram_size);
    let o2 = opt_lines("zram-resident-limit"@, d.zram_resident_limit);
    let o3 = opt_lines("compression-algorithm"@, d.compression_algorithm);
    let p = priority_lines(d.swap_priority);
    let o5 = opt_lines("fs-type"@, d.fs_type);
    let o6 = opt_lines("mount-point"@, d.mount_point);
    let e = seq![Seq::<char>::empty()];
    lemma_opt_lines_plain("zram-size"@, d.zram_size);
    lemma_opt_lines_plain("zram-resident-limit"@, d.zram_resident_limit);
    lemma_opt_lines_plain("compression-algorithm"@, d.compression_algorithm);
    lemma_opt_lines_plain("fs-type"@, d.fs_type);
    lemma_opt_lines_plain("mount-point"@, d.mount_point);
    if let Some(x) = d.swap_priority {
        lemma_int_str_plain(x);
        lemma_key_line_plain("swap-priority"@, int_str(x as int));
        assert(p[0] == "swap-priority"@ + " = "@ + int_str(x as int));
    }
    assert(all_plain_lines(p));
    assert(all_plain_lines(e));
    lemma_all_plain_lines_append(h, o1);
    lemma_all_plain_lines_append(h + o1, o2);
    lemma_all_plain_lines_append(h + o1 + o2, o3);
    lemma_all_plain_lines_append(h + o1 + o2 + o3, p);
    lemma_all_plain_lines_append(h + o1 + o2 + o3 + p, o5);
    lemma_all_plain_lines_append(h + o1 + o2 + o3 + p + o5, o6);
    lemma_all_plain_lines_append(h + o1 + o2 + o3 + p + o5 + o6, e);
}

proof fn lemma_all_sections_plain(ds: Seq<ZramConfigView>)
    requires
        forall|i: int| 0 <= i < ds.len() ==> renders_back(#[trigger] ds[i]),
    ensures
        all_plain_lines(all_section_lines(ds)),
    decreases ds.len(),
{
    if ds.len() > 0 {
        let rest = ds.drop_last();
        assert forall|i: int| 0 <= i < rest.len() implies renders_back(#[trigger] rest[i]) by {
            assert(rest[i] == ds[i]);
        }
        lemma_all_sections_plain(rest);
        assert(renders_back(ds[ds.len() - 1]));
        lemma_section_plain(ds.last());
        lemma_all_plain_lines_append(all_section_lines(rest), section_lines(ds.last()));
    }
}

// ---------------------------------------------------------------------------
// Parsing the lines
// ---------------------------------------------------------------------------

/// The parser's state after reading the lines `ls` from the state `st`.
pub open spec fn conf_fold(st: ParseState, ls: Seq<Seq<char>>) -> ParseState
    decreases ls.len(),
{
    if ls.len() == 0 {
        st
    } else {
        conf_line(conf_fold(st, ls.drop_last()), ls.last())
    }
}

pub open spec fn initial_state() -> ParseState {
    ParseState { devices: Seq::empty(), current: None }
}

/// The finished sections of a state, the open one included.
pub open spec fn flushed(st: ParseState) -> Seq<ZramConfigView> {
    match st.current {
        Some(d) => st.devices.push(d),
        None => st.devices,
    }
}

proof fn lemma_conf_state_fold(ls: Seq<Seq<char>>)
    ensures
        conf_state(ls) == conf_fold(initial_state(), ls),
    decreases ls.len(),
{
    if ls.len() > 0 {
        lemma_conf_state_fold(ls.drop_last());
    }
}

proof fn lemma_conf_fold_append(st: ParseState, a: Seq<Seq<char>>, b: Seq<Seq<char>>)
    ensures
        conf_fold(st, a + b) == conf_fold(conf_fold(st, a), b),
    decreases b.len(),
{
    if b.len() == 0 {
        assert(a + b =~= a);
    } else {
        assert((a + b).drop_last() =~= a + b.drop_last());
        assert((a + b).last() == b.last());
        lemma_conf_fold_append(st, a, b.drop_last());
    }
}

proof fn lemma_conf_fold_one(st: ParseState, l: Seq<char>)
    ensures
        conf_fold(st, seq![l]) == conf_line(st, l),
{
    reveal_with_fuel(conf_fold, 2);
    assert(seq![l].drop_last() =~= Seq::<Seq<char>>::empty());
}

/// A `key = value` line sets the key in the open section.
proof fn lemma_key_line(st: ParseState, key: Seq<char>, value: Seq<char>)
    requires
        plain_key(key),
        plain_value(value),
        st.current is Some,
    ensures
        conf_line(st, key + " = "@ + value) == (ParseState {
            current: Some(set_key(st.current->0, key, value)),
            ..st
        }),
{
    reveal_strlit("[");
    let line = key + " = "@ + value;
    lemma_key_value_line(key, value);
    assert(!crate::text::starts_with(line, "["@)) by {
        assert(line.subrange(0, 1)[0] == key[0]);
    }
}

proof fn lemma_opt_fold(st: ParseState, key: Seq<char>, v: Option<Seq<char>>)
    requires
        plain_key(key),
        valid_opt_value(v),
        st.current is Some,
    ensures
        conf_fold(st, opt_lines(key, v)) == match v {
            Some(x) => ParseState { current: Some(set_key(st.current->0, key, x)), ..st },
            None => st,
        },
{
    match v {
        Some(x) => {
            lemma_valid_value_plain(x);
            lemma_conf_fold_one(st, key + " = "@ + x);
            lemma_key_line(st, key, x);
        },
        None => {
            assert(opt_lines(key, v) =~= Seq::<Seq<char>>::empty());
        },
    }
}

proof fn lemma_priority_fold(st: ParseState, p: Option<i32>)
    requires
        st.current is Some,
    ensures
        conf_fold(st, priority_lines(p)) == match p {
            Some(x) => ParseState {
                current: Some(crate::apply::types::ZramConfigView { swap_priority: Some(x), ..st.current->0 }),
                ..st
            },
            None => st,
        },
{
    lemma_keys_plain();
    match p {
        Some(x) => {
            lemma_int_str_plain(x);
            lemma_conf_fold_one(st, "swap-priority"@ + " = "@ + int_str(x as int));
            lemma_key_line(st, "swap-priority"@, int_str(x as int));
            lemma_parse_int_str(x);
            reveal_strlit("zram-size");
            reveal_strlit("zram-resident-limit");
            reveal_strlit("compression-algorithm");
            reveal_strlit("swap-priority");
            assert("swap-priority"@ != "zram-size"@);
            assert("swap-priority"@ != "zram-resident-limit"@);
            assert("swap-priority"@ != "compression-algorithm"@);
            let cur = st.current->0;
            assert(set_key(cur, "swap-priority"@, int_str(x as int)) == (ZramConfigView {
                swap_priority: Some(x),
                ..cur
            }));
        },
        None => {
            assert(priority_lines(p) =~= Seq::<Seq<char>>::empty());
        },
    }
}

/// The header line of a section opens it and closes the one before.
proof fn lemma_header_line(st: ParseState, name: Seq<char>)
    requires
        valid_device_name(name),
    ensures
        conf_line(st, "["@ + name + "]"@) == (ParseState { devices: flushed(st), current: Some(new_section(name)) }),
{
    reveal_strlit("[");
    reveal_strlit("]");
    let h = "["@ + name + "]"@;
    assert(h[0] == '[');
    assert(h.last() == ']');
    lemma_trim_unpadded(h);
    assert(h.subrange(0, 1) =~= "["@);
    assert(h.subrange(h.len() - 1, h.len() as int) =~= "]"@);
    let t = h.drop_first();
    assert(t =~= name + "]"@);
    assert(trim_brackets_start(h) == trim_brackets_start(t));
    assert(t[0] == name[0]);
    assert(crate::validation::is_ascii_alnum(name[0]) || name[0] == '-' || name[0] == '_');
    assert(trim_brackets_start(t) == t);
    assert(t.drop_last() =~= name);
    assert(trim_brackets_end(t) == trim_brackets_end(name));
    assert(crate::validation::is_ascii_alnum(name[name.len() - 1]) || name[name.len() - 1] == '-' || name[
        name.len() - 1
    ] == '_');
    assert(trim_brackets_end(name) == name);
    assert(trim_brackets(h) == name);
}

/// Reading a rendered section closes the open one and leaves the section
/// open with all its keys set.
proof fn lemma_section_fold(st: ParseState, d: ZramConfigView)
    requires
        renders_back(d),
    ensures
        conf_fold(st, section_lines(d)) == (ParseState { devices: flushed(st), current: Some(d) }),
{
    lemma_keys_plain();
    reveal_strlit("zram-size");
    reveal_strlit("zram-resident-limit");
    reveal_strlit("compression-algorithm");
    reveal_strlit("swap-priority");
    reveal_strlit("fs-type");
    reveal_strlit("mount-point");
    let h = seq!["["@ + d.device + "]"@];
    let o1 = opt_lines("zram-size"@, d.zram_size);
    let o2 = opt_lines("zram-resident-limit"@, d.zram_resident_limit);
    let o3 = opt_lines("compression-algorithm"@, d.compression_algorithm);
    let p = priority_lines(d.swap_priority);
    let o5 = opt_lines("fs-type"@, d.fs_type);
    let o6 = opt_lines("mount-point"@, d.mount_point);
    let e = seq![Seq::<char>::empty()];
    lemma_conf_fold_append(st, h, o1);
    lemma_conf_fold_append(st, h + o1, o2);
    lemma_conf_fold_append(st, h + o1 + o2, o3);
    lemma_conf_fold_append(st, h + o1 + o2 + o3, p);
    lemma_conf_fold_append(st, h + o1 + o2 + o3 + p, o5);
    lemma_conf_fold_append(st, h + o1 + o2 + o3 + p + o5, o6);
    lemma_conf_fold_append(st, h + o1 + o2 + o3 + p + o5 + o6, e);
    lemma_conf_fold_one(st, "["@ + d.device + "]"@);
    lemma_header_line(st, d.device);
    let s0 = ParseState { devices: flushed(st), current: Some(new_section(d.device)) };
    lemma_opt_fold(s0, "zram-size"@, d.zram_size);
    let s1 = conf_fold(s0, o1);
    lemma_opt_fold(s1, "zram-resident-limit"@, d.zram_resident_limit);
    let s2 = conf_fold(s1, o2);
    lemma_opt_fold(s2, "compression-algorithm"@, d.compression_algorithm);
    let s3 = conf_fold(s2, o3);
    lemma_priority_fold(s3, d.swap_priority);
    let s4 = conf_fold(s3, p);
    lemma_opt_fold(s4, "fs-type"@, d.fs_type);
    let s5 = conf_fold(s4, o5);
    lemma_opt_fold(s5, "mount-point"@, d.mount_point);
    let s6 = conf_fold(s5, o6);
    lemma_conf_fold_one(s6, Seq::<char>::empty());
    assert(trim(Seq::<char>::empty()) =~= Seq::<char>::empty());
    assert(s6.current->0 == d);
}

proof fn lemma_sections_fold(ds: Seq<ZramConfigView>)
    requires
        forall|i: int| 0 <= i < ds.len() ==> renders_back(#[trigger] ds[i]),
    ensures
        flushed(conf_fold(initial_state(), all_section_lines(ds))) == ds,
    decreases ds.len(),
{
    if ds.len() == 0 {
        assert(all_section_lines(ds) =~= Seq::<Seq<char>>::empty());
        assert(flushed(initial_state()) =~= ds);
    } else {
        let rest = ds.drop_last();
        assert forall|i: int| 0 <= i < rest.len() implies renders_back(#[trigger] rest[i]) by {
            assert(rest[i] == ds[i]);
        }
        lemma_sections_fold(rest);
        assert(renders_back(ds[ds.len() - 1]));
        lemma_conf_fold_append(initial_state(), all_section_lines(rest), section_lines(ds.last()));
        lemma_section_fold(conf_fold(initial_state(), all_section_lines(rest)), ds.last());
        assert(rest.push(ds.last()) =~= ds);
    }
}

/// Parsing a rendered zram-generator.conf gives back its device sections,
/// in order, whenever their names and values are valid.
pub proof fn lemma_parse_render_roundtrip(ds: Seq<ZramConfigView>)
    requires
        forall|i: int| 0 <= i < ds.len() ==> renders_back(#[trigger] ds[i]),
    ensures
        spec_parse_conf(spec_render_conf(ds)) == ds,
{
    let comment = seq!["# Managed by xzram"@];
    let body = all_section_lines(ds);
    lemma_render_lines(ds);
    lemma_all_sections_plain(ds);
    reveal_strlit("# Managed by xzram");
    let c = "# Managed by xzram"@;
    assert(c[0] == '#');
    lemma_trim_unpadded(c);
    assert forall|i: int| 0 <= i < c.len() implies c[i] != '\n' by {}
    assert(all_plain_lines(comment));
    lemma_all_plain_lines_append(comment, body);
    lemma_lines_unlines(comment + body);
    lemma_conf_state_fold(comment + body);
    lemma_conf_fold_append(initial_state(), comment, body);
    lemma_conf_fold_one(initial_state(), c);
    assert(conf_fold(initial_state(), comment) == initial_state());
    lemma_sections_fold(ds);
}

} // verus!
