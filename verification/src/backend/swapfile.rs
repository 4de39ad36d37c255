//! Swapfiles listed in fstab, and the fstab edits that add or remove one.
use vstd::prelude::*;

use crate::num::{int_str, is_digit, lemma_nat_str_digits, lemma_parse_int_str, nat_str, parse_i32, parse_i32_of, push_int};
use crate::validation::valid_swapfile_path;
use crate::text::{
    chars_of, contains_of, contains_seq, eq_str, join_with, lemma_join_newline_unlines, lemma_lines_no_newline,
    lemma_lines_unlines_cr, lemma_split_char_join, lemma_split_char_single, lemma_split_ws_join, lemma_split_ws_word, lemma_trim_drop_ws, lines, lines_of, no_newline, owned,
    push_chars, push_str, slice_of, split_char, split_on, split_ws, split_ws_of, starts_with, starts_with_str,
    strip_cr, trim, trim_chars, views,
};

verus! {

/// The fields of an fstab line that declares swap: trimmed, not blank or a
/// comment, at least three whitespace-separated fields, the third `swap`.
pub open spec fn swap_fields(line: Seq<char>) -> Option<Seq<Seq<char>>> {
    let t = trim(line);
    if t.len() == 0 || t[0] == '#' {
        None
    } else {
        let f = split_ws(t);
        if f.len() >= 3 && f[2] == "swap"@ {
            Some(f)
        } else {
            None
        }
    }
}

/// The mount options field, `defaults` when absent.
pub open spec fn options_of(f: Seq<Seq<char>>) -> Seq<char> {
    if f.len() > 3 {
        f[3]
    } else {
        "defaults"@
    }
}

pub fn swap_fields_of(line: &[char]) -> (r: Option<Vec<Vec<char>>>)
    ensures
        match swap_fields(line@) {
            Some(f) => r is Some && views(r->0@) == f,
            None => r is None,
        },
{
    let t = trim_chars(line);
    if t.len() == 0 || t[0] == '#' {
        return None;
    }
    let f = split_ws_of(&t);
    if f.len() >= 3 && eq_str(&f[2], "swap") {
        assert(views(f@)[2] == f@[2]@);
        Some(f)
    } else {
        if f.len() >= 3 {
            assert(views(f@)[2] == f@[2]@);
        }
        None
    }
}

pub fn options_field(f: &Vec<Vec<char>>) -> (r: Vec<char>)
    ensures
        r@ == options_of(views(f@)),
{
    if f.len() > 3 {
        slice_of(&f[3], 0, f[3].len())
    } else {
        chars_of("defaults")
    }
}

/// The priority of the first `pri=` option, 10 when it does not parse or
/// there is none.
pub open spec fn first_priority(opts: Seq<Seq<char>>) -> i32
    decreases opts.len(),
{
    if opts.len() == 0 {
        10
    } else if starts_with(opts[0], "pri="@) {
        match parse_i32(opts[0].subrange(4, opts[0].len() as int)) {
            Some(p) => p,
            None => 10,
        }
    } else {
        first_priority(opts.drop_first())
    }
}

pub open spec fn spec_fstab_priority(options: Seq<char>) -> i32 {
    first_priority(split_char(options, ','))
}

/// The swap priority in fstab mount options (`pri=N`), 10 by default.
pub fn parse_fstab_priority(options: &str) -> (p: i32)
    ensures
        p == spec_fstab_priority(options@),
{
    let c = chars_of(options);
    let opts = split_on(&c, ',');
    let ghost all = views(opts@);
    assert(all.subrange(0, all.len() as int) =~= all);
    proof {
        reveal_strlit("pri=");
    }
    let mut i: usize = 0;
    while i < opts.len()
        invariant
            i <= opts.len(),
            all == views(opts@),
            all == split_char(options@, ','),
            first_priority(all) == first_priority(all.subrange(i as int, all.len() as int)),
        decreases opts.len() - i,
    {
        let ghost rest = all.subrange(i as int, all.len() as int);
        assert(rest[0] == opts@[i as int]@);
        assert(rest.drop_first() =~= all.subrange(i + 1, all.len() as int));
        proof {
            reveal_strlit("pri=");
        }
        if starts_with_str(&opts[i], "pri=") {
            let v = slice_of(&opts[i], 4, opts[i].len());
            return match parse_i32_of(&v) {
                Some(p) => p,
                None => 10,
            };
        }
        i = i + 1;
    }
    assert(all.subrange(opts.len() as int, all.len() as int) =~= Seq::<Seq<char>>::empty());
    10
}

/// A swapfile declared in fstab.
#[derive(Debug, Clone)]
pub struct FstabSwapfile {
    pub path: String,
    pub priority: i32,
}

/// Swap entries of fstab whose device is a path outside `/dev/`, with their
/// priorities, in file order.
pub open spec fn fstab_swapfiles_of(ls: Seq<Seq<char>>) -> Seq<(Seq<char>, i32)>
    decreases ls.len(),
{
    if ls.len() == 0 {
        Seq::empty()
    } else {
        let rest = fstab_swapfiles_of(ls.drop_last());
        match swap_fields(ls.last()) {
            Some(f) => if f[0].len() > 0 && f[0][0] == '/' && !starts_with(f[0], "/dev/"@) {
                rest.push((f[0], spec_fstab_priority(options_of(f))))
            } else {
                rest
            },
            None => rest,
        }
    }
}

pub open spec fn swapfiles_view(v: Seq<FstabSwapfile>) -> Seq<(Seq<char>, i32)> {
    v.map_values(|e: FstabSwapfile| (e.path@, e.priority))
}

/// The swapfiles that the fstab text `content` declares.
pub fn parse_fstab_swapfiles(content: &str) -> (r: Vec<FstabSwapfile>)
    ensures
        swapfiles_view(r@) == fstab_swapfiles_of(lines(content@)),
{
    let c = chars_of(content);
    let ls = lines_of(&c);
    let mut r: Vec<FstabSwapfile> = Vec::new();
    let mut i: usize = 0;
    while i < ls.len()
        invariant
            i <= ls.len(),
            views(ls@) == lines(content@),
            swapfiles_view(r@) == fstab_swapfiles_of(views(ls@).subrange(0, i as int)),
        decreases ls.len() - i,
    {
        let ghost pre = views(ls@).subrange(0, (i + 1) as int);
        assert(pre.drop_last() == views(ls@).subrange(0, i as int));
        assert(pre.last() == ls@[i as int]@);
        let ghost r0 = r@;
        if let Some(f) = swap_fields_of(&ls[i]) {
            assert(views(f@)[0] == f@[0]@);
            let dev = &f[0];
            if dev.len() > 0 && dev[0] == '/' && !starts_with_str(dev, "/dev/") {
                let opts = options_field(&f);
                let mut path = String::new();
                push_chars(&mut path, dev.as_slice());
                let mut o = String::new();
                push_chars(&mut o, opts.as_slice());
                let priority = parse_fstab_priority(o.as_str());
                r.push(FstabSwapfile { path, priority });
                assert(swapfiles_view(r@) =~= swapfiles_view(r0).push((dev@, priority)));
            }
        }
        i = i + 1;
    }
    assert(views(ls@).subrange(0, ls.len() as int) == views(ls@));
    r
}

/// The priority fstab gives the swapfile at `path`, 10 when it is not listed.
pub open spec fn spec_priority_for_path(entries: Seq<(Seq<char>, i32)>, path: Seq<char>) -> i32
    decreases entries.len(),
{
    if entries.len() == 0 {
        10
    } else if entries[0].0 == path {
        entries[0].1
    } else {
        spec_priority_for_path(entries.drop_first(), path)
    }
}

pub fn priority_for_path(fstab: &str, path: &str) -> (p: i32)
    ensures
        p == spec_priority_for_path(fstab_swapfiles_of(lines(fstab@)), path@),
{
    let entries = parse_fstab_swapfiles(fstab);
    let ghost all = swapfiles_view(entries@);
    let pc = chars_of(path);
    assert(all.subrange(0, all.len() as int) =~= all);
    let mut i: usize = 0;
    while i < entries.len()
        invariant
            i <= entries.len(),
            all == swapfiles_view(entries@),
            all == fstab_swapfiles_of(lines(fstab@)),
            pc@ == path@,
            spec_priority_for_path(all, path@) == spec_priority_for_path(all.subrange(i as int, all.len() as int), path@),
        decreases entries.len() - i,
    {
        let ghost rest = all.subrange(i as int, all.len() as int);
        assert(rest[0] == (entries@[i as int].path@, entries@[i as int].priority));
        assert(rest.drop_first() =~= all.subrange(i + 1, all.len() as int));
        let ec = chars_of(entries[i].path.as_str());
        if crate::text::chars_eq(&ec, &pc) {
            assert(rest[0].0 == path@);
            assert(spec_priority_for_path(rest, path@) == rest[0].1);
            return entries[i].priority;
        }
        i = i + 1;
    }
    assert(all.subrange(entries.len() as int, all.len() as int) =~= Seq::<(Seq<char>, i32)>::empty());
    10
}

/// An fstab line whose first field is exactly `path` (comments never match).
pub open spec fn spec_line_matches(line: Seq<char>, path: Seq<char>) -> bool {
    let t = trim(line);
    t.len() > 0 && t[0] != '#' && split_ws(t).len() > 0 && split_ws(t)[0] == path
}

pub fn fstab_line_matches_swapfile(line: &str, path: &str) -> (r: bool)
    ensures
        r == spec_line_matches(line@, path@),
{
    let t = trim_chars(&chars_of(line));
    if t.len() == 0 || t[0] == '#' {
        return false;
    }
    let f = split_ws_of(&t);
    if f.len() == 0 {
        return false;
    }
    assert(views(f@)[0] == f@[0]@);
    crate::text::chars_eq(&f[0], &chars_of(path))
}

/// The fstab line that declares a swapfile.
pub open spec fn fstab_entry(path: Seq<char>, priority: i32) -> Seq<char> {
    "\n"@ + path + " none swap sw,pri="@ + int_str(priority as int) + " 0 0\n"@
}

/// fstab with a swapfile entry appended, or `None` when the text already
/// mentions the path.
pub fn add_fstab_entry(content: &str, path: &str, priority: i32) -> (r: Option<String>)
    ensures
        contains_seq(content@, path@) <==> r is None,
        r matches Some(s) ==> s@ == content@ + fstab_entry(path@, priority),
{
    if contains_of(&chars_of(content), &chars_of(path)) {
        return None;
    }
    let mut s = owned(content);
    push_str(&mut s, "\n");
    push_str(&mut s, path);
    push_str(&mut s, " none swap sw,pri=");
    push_int(&mut s, priority as i64);
    push_str(&mut s, " 0 0\n");
    assert(s@ =~= content@ + fstab_entry(path@, priority));
    Some(s)
}

/// The lines that do not declare `path`.
pub open spec fn kept_lines(ls: Seq<Seq<char>>, path: Seq<char>) -> Seq<Seq<char>>
    decreases ls.len(),
{
    if ls.len() == 0 {
        Seq::empty()
    } else if spec_line_matches(ls.last(), path) {
        kept_lines(ls.drop_last(), path)
    } else {
        kept_lines(ls.drop_last(), path).push(ls.last())
    }
}

/// fstab without the lines that declare `path`, lines joined by newlines and
/// ending in one.
pub open spec fn spec_remove_entry(content: Seq<char>, path: Seq<char>) -> Seq<char> {
    join_with(kept_lines(lines(content), path), "\n"@) + "\n"@
}

pub fn remove_fstab_entry(content: &str, path: &str) -> (s: String)
    ensures
        s@ == spec_remove_entry(content@, path@),
{
    let c = chars_of(content);
    let ls = lines_of(&c);
    let pc = chars_of(path);
    let mut s = String::new();
    let mut kept: usize = 0;
    let mut i: usize = 0;
    while i < ls.len()
        invariant
            i <= ls.len(),
            kept <= i,
            views(ls@) == lines(content@),
            pc@ == path@,
            kept == kept_lines(views(ls@).subrange(0, i as int), path@).len(),
            s@ == join_with(kept_lines(views(ls@).subrange(0, i as int), path@), "\n"@),
        decreases ls.len() - i,
    {
        let ghost pre = views(ls@).subrange(0, (i + 1) as int);
        assert(pre.drop_last() == views(ls@).subrange(0, i as int));
        assert(pre.last() == ls@[i as int]@);
        let t = trim_chars(&ls[i]);
        let mut matches = false;
        if t.len() > 0 && t[0] != '#' {
            let f = split_ws_of(&t);
            if f.len() > 0 {
                assert(views(f@)[0] == f@[0]@);
                matches = crate::text::chars_eq(&f[0], &pc);
            }
        }
        assert(matches == spec_line_matches(ls@[i as int]@, path@));
        if !matches {
            let ghost k0 = kept_lines(views(ls@).subrange(0, i as int), path@);
            let ghost k1 = k0.push(ls@[i as int]@);
            assert(k1.drop_last() =~= k0);
            if kept > 0 {
                push_str(&mut s, "\n");
            } else {
                assert(k0.len() == 0);
                assert(join_with(k0, "\n"@) =~= Seq::<char>::empty());
            }
            push_chars(&mut s, ls[i].as_slice());
            assert(s@ =~= join_with(k1, "\n"@));
            kept = kept + 1;
        }
        i = i + 1;
    }
    assert(views(ls@).subrange(0, ls.len() as int) == views(ls@));
    push_str(&mut s, "\n");
    s
}

proof fn lemma_kept_lines(ls: Seq<Seq<char>>, path: Seq<char>)
    requires
        forall|j: int| 0 <= j < ls.len() ==> no_newline(#[trigger] ls[j]),
    ensures
        forall|i: int|
            0 <= i < kept_lines(ls, path).len() ==> no_newline(#[trigger] kept_lines(ls, path)[i])
                && !spec_line_matches(kept_lines(ls, path)[i], path),
    decreases ls.len(),
{
    if ls.len() > 0 {
        let init = ls.drop_last();
        assert forall|j: int| 0 <= j < init.len() implies no_newline(#[trigger] init[j]) by {
            assert(init[j] == ls[j]);
        }
        lemma_kept_lines(init, path);
        assert(no_newline(ls[ls.len() - 1]));
        let prev = kept_lines(init, path);
        let cur = kept_lines(ls, path);
        assert forall|i: int| 0 <= i < cur.len() implies no_newline(#[trigger] cur[i]) && !spec_line_matches(
            cur[i],
            path,
        ) by {
            if i < prev.len() {
                assert(cur[i] == prev[i]);
            } else {
                assert(cur[i] == ls.last());
            }
        }
    }
}

/// After a swapfile's entry is removed, no line of fstab declares it.
pub proof fn lemma_removed_entry_gone(content: Seq<char>, path: Seq<char>)
    ensures
        forall|i: int|
            0 <= i < lines(spec_remove_entry(content, path)).len() ==> !spec_line_matches(
                #[trigger] lines(spec_remove_entry(content, path))[i],
                path,
            ),
{
    reveal_strlit("\n");
    let k = kept_lines(lines(content), path);
    lemma_lines_no_newline(content);
    lemma_kept_lines(lines(content), path);
    let out = spec_remove_entry(content, path);
    if k.len() == 0 {
        assert(out =~= Seq::<char>::empty() + seq!['\n'] + Seq::<char>::empty());
        lemma_split_char_join(Seq::<char>::empty(), Seq::<char>::empty(), '\n');
        assert(lines(out) =~= seq![Seq::<char>::empty()]);
        assert(trim(Seq::<char>::empty()) =~= Seq::<char>::empty());
    } else {
        lemma_join_newline_unlines(k);
        lemma_lines_unlines_cr(k);
        assert forall|i: int| 0 <= i < lines(out).len() implies !spec_line_matches(#[trigger] lines(out)[i], path) by {
            let l = k[i];
            assert(lines(out)[i] == strip_cr(l));
            assert(!spec_line_matches(l, path));
            if l.len() > 0 && l.last() == '\r' {
                lemma_trim_drop_ws(l);
            }
        }
    }
}

/// The fstab line of an added swapfile entry.
pub open spec fn entry_line(path: Seq<char>, priority: i32) -> Seq<char> {
    path + " none swap sw,pri="@ + int_str(priority as int) + " 0 0"@
}

proof fn lemma_entry_priority(priority: i32)
    ensures
        spec_fstab_priority("sw,pri="@ + int_str(priority as int)) == priority,
{
    reveal_strlit("sw,pri=");
    reveal_strlit("sw");
    reveal_strlit("pri=");
    let n = int_str(priority as int);
    lemma_int_str_text(priority);
    let opts = "sw,pri="@ + n;
    assert(opts =~= "sw"@ + seq![','] + ("pri="@ + n));
    lemma_split_char_join("sw"@, "pri="@ + n, ',');
    lemma_split_char_single("sw"@, ',');
    assert forall|i: int| 0 <= i < ("pri="@ + n).len() implies ("pri="@ + n)[i] != ',' by {
        if i >= 4 {
            assert(("pri="@ + n)[i] == n[i - 4]);
        }
    }
    lemma_split_char_single("pri="@ + n, ',');
    let parts = split_char(opts, ',');
    assert(parts =~= seq!["sw"@, "pri="@ + n]);
    assert(!starts_with(parts[0], "pri="@));
    assert(parts.drop_first() =~= seq!["pri="@ + n]);
    assert(starts_with(parts[1], "pri="@)) by {
        assert(parts[1].subrange(0, 4) =~= "pri="@);
    }
    assert(parts[1].subrange(4, parts[1].len() as int) =~= n);
    lemma_parse_int_str(priority);
    assert(first_priority(parts.drop_first()) == priority);
}

/// The rendering of an integer: digits, after a `-` when negative.
proof fn lemma_int_str_text(x: i32)
    ensures
        int_str(x as int).len() > 0,
        int_str(x as int).last() != ' ',
        !crate::text::is_ws(int_str(x as int).last()),
        forall|i: int|
            0 <= i < int_str(x as int).len() ==> !crate::text::is_ws(#[trigger] int_str(x as int)[i])
                && int_str(x as int)[i] != ',' && int_str(x as int)[i] != '\n',
{
    let s = int_str(x as int);
    if x < 0 {
        let b = nat_str((0 - x) as nat);
        lemma_nat_str_digits((0 - x) as nat);
        assert(s =~= seq!['-'] + b);
        assert(s.last() == b.last());
        assert(is_digit(b[b.len() - 1]));
        assert forall|i: int| 0 <= i < s.len() implies !crate::text::is_ws(#[trigger] s[i]) && s[i] != ','
            && s[i] != '\n' by {
            if i > 0 {
                assert(s[i] == b[i - 1]);
                assert(is_digit(b[i - 1]));
            }
        }
    } else {
        lemma_nat_str_digits(x as nat);
        assert(is_digit(s[s.len() - 1]));
        assert forall|i: int| 0 <= i < s.len() implies !crate::text::is_ws(#[trigger] s[i]) && s[i] != ','
            && s[i] != '\n' by {
            assert(is_digit(s[i]));
        }
    }
}

proof fn lemma_entry_words(path: Seq<char>, priority: i32)
    requires
        valid_swapfile_path(path),
    ensures
        split_ws(entry_line(path, priority)) == seq![
            path,
            "none"@,
            "swap"@,
            "sw,pri="@ + int_str(priority as int),
            "0"@,
            "0"@,
        ],
{
    reveal_strlit(" none swap sw,pri=");
    reveal_strlit(" 0 0");
    reveal_strlit("none");
    reveal_strlit("swap");
    reveal_strlit("sw,pri=");
    reveal_strlit("0");
    let n = int_str(priority as int);
    lemma_int_str_text(priority);
    let opts = "sw,pri="@ + n;
    let l = entry_line(path, priority);
    assert(l =~= path + seq![' '] + ("none"@ + seq![' '] + ("swap"@ + seq![' '] + (opts + seq![' '] + ("0"@
        + seq![' '] + "0"@)))));
    lemma_split_ws_join("0"@, "0"@);
    lemma_split_ws_join(opts, "0"@ + seq![' '] + "0"@);
    lemma_split_ws_join("swap"@, opts + seq![' '] + ("0"@ + seq![' '] + "0"@));
    lemma_split_ws_join("none"@, "swap"@ + seq![' '] + (opts + seq![' '] + ("0"@ + seq![' '] + "0"@)));
    lemma_split_ws_join(path, "none"@ + seq![' '] + ("swap"@ + seq![' '] + (opts + seq![' '] + ("0"@ + seq![' ']
        + "0"@))));
    assert forall|i: int| 0 <= i < path.len() implies !crate::text::is_ws(#[trigger] path[i]) by {}
    lemma_split_ws_word(path);
    lemma_split_ws_word("none"@);
    lemma_split_ws_word("swap"@);
    assert forall|i: int| 0 <= i < opts.len() implies !crate::text::is_ws(#[trigger] opts[i]) by {
        if i >= 7 {
            assert(opts[i] == n[i - 7]);
        }
    }
    lemma_split_ws_word(opts);
    lemma_split_ws_word("0"@);
    assert(split_ws(l) =~= seq![path, "none"@, "swap"@, opts, "0"@, "0"@]);
}

/// A swapfile entry appended to fstab is read back: the new text ends with
/// the entry's line, that line declares the path, and the swapfiles read
/// from the new text end with the path and its priority.
pub proof fn lemma_added_entry_read_back(content: Seq<char>, path: Seq<char>, priority: i32)
    requires
        valid_swapfile_path(path),
    ensures
        lines(content + fstab_entry(path, priority)).len() > 0,
        lines(content + fstab_entry(path, priority)).last() == entry_line(path, priority),
        spec_line_matches(entry_line(path, priority), path),
        fstab_swapfiles_of(lines(content + fstab_entry(path, priority))) == fstab_swapfiles_of(
            lines(content + fstab_entry(path, priority)).drop_last(),
        ).push((path, priority)),
{
    reveal_strlit("\n");
    reveal_strlit(" 0 0\n");
    reveal_strlit(" 0 0");
    reveal_strlit("swap");
    reveal_strlit("/dev/");
    let l = entry_line(path, priority);
    let n = int_str(priority as int);
    lemma_int_str_text(priority);
    let text = content + fstab_entry(path, priority);
    assert(text =~= content + seq!['\n'] + (l + seq!['\n']));
    assert(l.last() == '0');
    assert(l[0] == path[0]);
    assert forall|i: int| 0 <= i < l.len() implies l[i] != '\n' by {
        reveal_strlit(" none swap sw,pri=");
        if i < path.len() {
            assert(l[i] == path[i]);
        } else if path.len() + 18 <= i < path.len() + 18 + n.len() {
            assert(l[i] == n[i - path.len() - 18]);
        }
    }
    lemma_split_char_join(content, l + seq!['\n'], '\n');
    lemma_split_char_join(l, Seq::<char>::empty(), '\n');
    assert(l + seq!['\n'] + Seq::<char>::empty() =~= l + seq!['\n']);
    lemma_split_char_single(l, '\n');
    crate::text::lemma_split_char_len(content, '\n');
    let parts = split_char(text, '\n');
    assert(parts =~= split_char(content, '\n') + seq![l, Seq::<char>::empty()]);
    let ls = lines(text);
    assert(ls.last() == strip_cr(parts[parts.len() - 2]));
    assert(strip_cr(l) == l);
    crate::text::lemma_trim_unpadded(l);
    lemma_entry_words(path, priority);
    lemma_entry_priority(priority);
    assert(swap_fields(l) == Some(split_ws(l)));
    assert(!starts_with(path, "/dev/"@));
    assert(options_of(split_ws(l)) == "sw,pri="@ + n);
}

} // verus!
