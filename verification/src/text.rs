//! Character-level text primitives shared by the configuration parsers.
//!
//! Every operation works on `Vec<char>` / `Seq<char>` and is specified by a
//! spec function over sequences, so that parsers built on top of these can be
//! stated as compositions of the same spec functions.
use vstd::prelude::*;
use vstd::string::*;

verus! {

// ---------------------------------------------------------------------------
// Spec vocabulary
// ---------------------------------------------------------------------------

/// Unicode `White_Space` (the set that `char::is_whitespace` accepts).
pub open spec fn is_ws(c: char) -> bool {
    let u = c as u32;
    ||| 0x09 <= u && u <= 0x0D
    ||| u == 0x20
    ||| u == 0x85
    ||| u == 0xA0
    ||| u == 0x1680
    ||| 0x2000 <= u && u <= 0x200A
    ||| u == 0x2028
    ||| u == 0x2029
    ||| u == 0x202F
    ||| u == 0x205F
    ||| u == 0x3000
}

/// `s` without its leading whitespace.
pub open spec fn trim_start(s: Seq<char>) -> Seq<char>
    decreases s.len(),
{
    if s.len() > 0 && is_ws(s[0]) {
        trim_start(s.drop_first())
    } else {
        s
    }
}

/// `s` without its trailing whitespace.
pub open spec fn trim_end(s: Seq<char>) -> Seq<char>
    decreases s.len(),
{
    if s.len() > 0 && is_ws(s.last()) {
        trim_end(s.drop_last())
    } else {
        s
    }
}

/// `s` without leading and trailing whitespace (`str::trim`).
pub open spec fn trim(s: Seq<char>) -> Seq<char> {
    trim_end(trim_start(s))
}

/// The pieces of `s` between occurrences of `sep` (`str::split` on a char):
/// always at least one piece; `k` separators give `k + 1` pieces.
pub open spec fn split_char(s: Seq<char>, sep: char) -> Seq<Seq<char>>
    decreases s.len(),
{
    if s.len() == 0 {
        seq![Seq::<char>::empty()]
    } else {
        let prev = split_char(s.drop_last(), sep);
        if s.last() == sep {
            prev.push(Seq::<char>::empty())
        } else {
            prev.update(prev.len() - 1, prev.last().push(s.last()))
        }
    }
}

/// One trailing `'\r'` removed, if there is one.
pub open spec fn strip_cr(l: Seq<char>) -> Seq<char> {
    if l.len() > 0 && l.last() == '\r' {
        l.drop_last()
    } else {
        l
    }
}

/// The lines of `s` (`str::lines`): split at `'\n'`; a line followed by a
/// `'\n'` also loses one trailing `'\r'`; a final empty piece is not a line.
pub open spec fn lines(s: Seq<char>) -> Seq<Seq<char>> {
    let parts = split_char(s, '\n');
    let n = parts.len();
    let body = Seq::new((n - 1) as nat, |i: int| strip_cr(parts[i]));
    if parts[n - 1].len() == 0 {
        body
    } else {
        body.push(parts[n - 1])
    }
}

/// Maximal runs of non-whitespace characters (`str::split_whitespace`).
pub open spec fn split_ws(s: Seq<char>) -> Seq<Seq<char>>
    decreases s.len(),
{
    if s.len() == 0 {
        Seq::empty()
    } else {
        let prev = split_ws(s.drop_last());
        let c = s.last();
        if is_ws(c) {
            prev
        } else if s.len() == 1 || is_ws(s.drop_last().last()) {
            prev.push(seq![c])
        } else {
            prev.update(prev.len() - 1, prev.last().push(c))
        }
    }
}

/// Index of the first occurrence of `c` in `s`.
pub open spec fn find_char(s: Seq<char>, c: char) -> Option<nat>
    decreases s.len(),
{
    if s.len() == 0 {
        None
    } else if s[0] == c {
        Some(0)
    } else {
        match find_char(s.drop_first(), c) {
            Some(i) => Some(i + 1),
            None => None,
        }
    }
}

/// `str::split_once` on a char: the text before and after the first `c`.
pub open spec fn split_once(s: Seq<char>, c: char) -> Option<(Seq<char>, Seq<char>)> {
    match find_char(s, c) {
        Some(i) => Some((s.subrange(0, i as int), s.subrange(i as int + 1, s.len() as int))),
        None => None,
    }
}

pub open spec fn starts_with(s: Seq<char>, p: Seq<char>) -> bool {
    p.len() <= s.len() && s.subrange(0, p.len() as int) == p
}

pub open spec fn ends_with(s: Seq<char>, p: Seq<char>) -> bool {
    p.len() <= s.len() && s.subrange(s.len() - p.len(), s.len() as int) == p
}

/// `p` occurs in `s` as a contiguous block.
pub open spec fn contains_seq(s: Seq<char>, p: Seq<char>) -> bool {
    exists|i: int| 0 <= i && i + p.len() <= s.len() && #[trigger] s.subrange(i, i + p.len()) == p
}

/// The character sequences held by a vector of character vectors.
pub open spec fn views(v: Seq<Vec<char>>) -> Seq<Seq<char>> {
    v.map_values(|x: Vec<char>| x@)
}

pub open spec fn has_char(s: Seq<char>, c: char) -> bool {
    exists|i: int| 0 <= i < s.len() && s[i] == c
}

// ---------------------------------------------------------------------------
// Lemmas
// ---------------------------------------------------------------------------

pub proof fn lemma_trim_start_skip(s: Seq<char>, i: int)
    requires
        0 <= i <= s.len(),
        forall|j: int| 0 <= j < i ==> is_ws(#[trigger] s[j]),
    ensures
        trim_start(s) == trim_start(s.subrange(i, s.len() as int)),
    decreases i,
{
    if i > 0 {
        assert(s.drop_first() == s.subrange(1, s.len() as int));
        let t = s.drop_first();
        assert forall|j: int| 0 <= j < i - 1 implies is_ws(#[trigger] t[j]) by {
            assert(t[j] == s[j + 1]);
        }
        lemma_trim_start_skip(t, i - 1);
        assert(t.subrange(i - 1, t.len() as int) == s.subrange(i, s.len() as int));
    } else {
        assert(s.subrange(0, s.len() as int) == s);
    }
}

pub proof fn lemma_trim_end_skip(s: Seq<char>, j: int)
    requires
        0 <= j <= s.len(),
        forall|k: int| j <= k < s.len() ==> is_ws(#[trigger] s[k]),
    ensures
        trim_end(s) == trim_end(s.subrange(0, j)),
    decreases s.len() - j,
{
    if j < s.len() {
        let t = s.drop_last();
        assert forall|k: int| j <= k < t.len() implies is_ws(#[trigger] t[k]) by {
            assert(t[k] == s[k]);
        }
        lemma_trim_end_skip(t, j);
        assert(t.subrange(0, j) == s.subrange(0, j));
    } else {
        assert(s.subrange(0, j) == s);
    }
}

pub proof fn lemma_find_char(s: Seq<char>, c: char)
    ensures
        match find_char(s, c) {
            Some(i) => i < s.len() && s[i as int] == c && forall|j: int|
                0 <= j < i ==> s[j] != c,
            None => forall|j: int| 0 <= j < s.len() ==> s[j] != c,
        },
    decreases s.len(),
{
    if s.len() > 0 && s[0] != c {
        lemma_find_char(s.drop_first(), c);
        match find_char(s.drop_first(), c) {
            Some(i) => {
                assert forall|j: int| 0 <= j < i + 1 implies s[j] != c by {
                    if j > 0 {
                        assert(s[j] == s.drop_first()[j - 1]);
                    }
                }
            },
            None => {
                assert forall|j: int| 0 <= j < s.len() implies s[j] != c by {
                    if j > 0 {
                        assert(s[j] == s.drop_first()[j - 1]);
                    }
                }
            },
        }
    }
}

pub proof fn lemma_find_char_at(s: Seq<char>, c: char, i: int)
    requires
        0 <= i < s.len(),
        s[i] == c,
        forall|j: int| 0 <= j < i ==> s[j] != c,
    ensures
        find_char(s, c) == Some(i as nat),
{
    lemma_find_char(s, c);
}

pub proof fn lemma_find_char_none(s: Seq<char>, c: char)
    requires
        forall|j: int| 0 <= j < s.len() ==> s[j] != c,
    ensures
        find_char(s, c) == None::<nat>,
{
    lemma_find_char(s, c);
}

/// `split_char` of a nonempty sequence is never empty.
pub proof fn lemma_split_char_len(s: Seq<char>, sep: char)
    ensures
        split_char(s, sep).len() >= 1,
    decreases s.len(),
{
    if s.len() > 0 {
        lemma_split_char_len(s.drop_last(), sep);
    }
}

/// The text made of the given lines, each followed by `'\n'`.
pub open spec fn unlines(ls: Seq<Seq<char>>) -> Seq<char>
    decreases ls.len(),
{
    if ls.len() == 0 {
        Seq::empty()
    } else {
        ls[0] + seq!['\n'] + unlines(ls.drop_first())
    }
}

pub open spec fn no_newline(l: Seq<char>) -> bool {
    forall|i: int| 0 <= i < l.len() ==> l[i] != '\n'
}

/// A line that `lines` reads back as it is: no `'\n'` and no final `'\r'`.
pub open spec fn plain_line(l: Seq<char>) -> bool {
    &&& forall|i: int| 0 <= i < l.len() ==> l[i] != '\n'
    &&& !(l.len() > 0 && l.last() == '\r')
}

/// Text without the separator is a single piece.
pub proof fn lemma_split_char_single(s: Seq<char>, sep: char)
    requires
        forall|i: int| 0 <= i < s.len() ==> s[i] != sep,
    ensures
        split_char(s, sep) == seq![s],
    decreases s.len(),
{
    if s.len() > 0 {
        let t = s.drop_last();
        assert forall|i: int| 0 <= i < t.len() implies t[i] != sep by {
            assert(t[i] == s[i]);
        }
        lemma_split_char_single(t, sep);
        assert(s.last() != sep);
        assert(t.push(s.last()) =~= s);
        assert(seq![t].update(0, t.push(s.last())) =~= seq![s]);
    } else {
        assert(s =~= Seq::<char>::empty());
    }
}

/// Splitting at a separator that joins two texts splits each of them.
pub proof fn lemma_split_char_join(x: Seq<char>, y: Seq<char>, sep: char)
    ensures
        split_char(x + seq![sep] + y, sep) == split_char(x, sep) + split_char(y, sep),
    decreases y.len(),
{
    let z = x + seq![sep] + y;
    let a = split_char(x, sep);
    if y.len() == 0 {
        assert(z.drop_last() =~= x);
        assert(a.push(Seq::<char>::empty()) =~= a + split_char(y, sep));
    } else {
        assert(z.drop_last() =~= x + seq![sep] + y.drop_last());
        lemma_split_char_join(x, y.drop_last(), sep);
        lemma_split_char_len(y.drop_last(), sep);
        let b = split_char(y.drop_last(), sep);
        if y.last() == sep {
            assert((a + b).push(Seq::<char>::empty()) =~= a + b.push(Seq::<char>::empty()));
        } else {
            assert((a + b).update((a + b).len() - 1, (a + b).last().push(y.last())) =~= a + b.update(
                b.len() - 1,
                b.last().push(y.last()),
            ));
        }
    }
}

proof fn lemma_split_unlines(ls: Seq<Seq<char>>)
    requires
        forall|i: int| 0 <= i < ls.len() ==> no_newline(#[trigger] ls[i]),
    ensures
        split_char(unlines(ls), '\n') == ls.push(Seq::<char>::empty()),
    decreases ls.len(),
{
    if ls.len() == 0 {
        assert(split_char(unlines(ls), '\n') =~= ls.push(Seq::<char>::empty()));
    } else {
        let rest = ls.drop_first();
        assert forall|i: int| 0 <= i < rest.len() implies no_newline(#[trigger] rest[i]) by {
            assert(rest[i] == ls[i + 1]);
        }
        lemma_split_unlines(rest);
        assert(no_newline(ls[0]));
        lemma_split_char_join(ls[0], unlines(rest), '\n');
        lemma_split_char_single(ls[0], '\n');
        assert(seq![ls[0]] + rest.push(Seq::<char>::empty()) =~= ls.push(Seq::<char>::empty()));
    }
}

/// `lines` reads back the lines that `unlines` wrote.
pub proof fn lemma_lines_unlines(ls: Seq<Seq<char>>)
    requires
        forall|i: int| 0 <= i < ls.len() ==> plain_line(#[trigger] ls[i]),
    ensures
        lines(unlines(ls)) == ls,
{
    assert forall|i: int| 0 <= i < ls.len() implies no_newline(#[trigger] ls[i]) by {
        assert(plain_line(ls[i]));
    }
    lemma_split_unlines(ls);
    let parts = split_char(unlines(ls), '\n');
    assert forall|i: int| 0 <= i < ls.len() implies strip_cr(parts[i]) == ls[i] by {
        assert(parts[i] == ls[i]);
        assert(plain_line(ls[i]));
    }
    assert(lines(unlines(ls)) =~= ls);
}

pub proof fn lemma_unlines_append(a: Seq<Seq<char>>, b: Seq<Seq<char>>)
    ensures
        unlines(a + b) == unlines(a) + unlines(b),
    decreases a.len(),
{
    if a.len() == 0 {
        assert(a + b =~= b);
        assert(unlines(a) + unlines(b) =~= unlines(b));
    } else {
        assert((a + b).drop_first() =~= a.drop_first() + b);
        assert((a + b)[0] == a[0]);
        lemma_unlines_append(a.drop_first(), b);
        assert(unlines(a + b) =~= unlines(a) + unlines(b));
    }
}

pub proof fn lemma_unlines_one(l: Seq<char>)
    ensures
        unlines(seq![l]) == l + seq!['\n'],
{
    reveal_with_fuel(unlines, 2);
    assert(seq![l].drop_first() =~= Seq::<Seq<char>>::empty());
    assert(unlines(seq![l]) =~= l + seq!['\n']);
}

/// Text with no whitespace at either end is its own trim.
pub proof fn lemma_trim_unpadded(s: Seq<char>)
    requires
        s.len() > 0,
        !is_ws(s[0]),
        !is_ws(s.last()),
    ensures
        trim(s) == s,
{
}

/// Trimming removes one space of padding on either side of unpadded text.
pub proof fn lemma_trim_padded(s: Seq<char>)
    requires
        s.len() > 0,
        !is_ws(s[0]),
        !is_ws(s.last()),
    ensures
        trim(s + seq![' ']) == s,
        trim(seq![' '] + s) == s,
{
    let r = s + seq![' '];
    assert(r[0] == s[0]);
    assert(r.drop_last() =~= s);
    assert(is_ws(r.last()));
    assert(trim_start(r) == r);
    assert(trim_end(s) == s);
    assert(trim_end(r) == trim_end(r.drop_last()));
    let l = seq![' '] + s;
    assert(l.drop_first() =~= s);
    assert(is_ws(l[0]));
    assert(trim_start(s) == s);
    assert(trim_start(l) == trim_start(l.drop_first()));
}

/// `lines` reads back the lines that `unlines` wrote, less one final
/// `'\r'` each.
pub proof fn lemma_lines_unlines_cr(ls: Seq<Seq<char>>)
    requires
        forall|i: int| 0 <= i < ls.len() ==> no_newline(#[trigger] ls[i]),
    ensures
        lines(unlines(ls)).len() == ls.len(),
        forall|i: int| 0 <= i < ls.len() ==> #[trigger] lines(unlines(ls))[i] == strip_cr(ls[i]),
{
    lemma_split_unlines(ls);
}

/// The pieces of a split contain no separator.
pub proof fn lemma_split_char_pieces(s: Seq<char>, sep: char)
    ensures
        forall|i: int, j: int|
            0 <= i < split_char(s, sep).len() && 0 <= j < split_char(s, sep)[i].len() ==> split_char(s, sep)[i][j]
                != sep,
    decreases s.len(),
{
    if s.len() > 0 {
        lemma_split_char_pieces(s.drop_last(), sep);
        lemma_split_char_len(s.drop_last(), sep);
        let prev = split_char(s.drop_last(), sep);
        if s.last() != sep {
            let last = prev.last().push(s.last());
            assert forall|j: int| 0 <= j < last.len() implies last[j] != sep by {
                if j < last.len() - 1 {
                    assert(last[j] == prev[prev.len() - 1][j]);
                }
            }
        }
    }
}

/// No line of a text contains a newline.
pub proof fn lemma_lines_no_newline(s: Seq<char>)
    ensures
        forall|i: int| 0 <= i < lines(s).len() ==> no_newline(#[trigger] lines(s)[i]),
{
    lemma_split_char_pieces(s, '\n');
    lemma_split_char_len(s, '\n');
    let parts = split_char(s, '\n');
    assert forall|i: int| 0 <= i < lines(s).len() implies no_newline(#[trigger] lines(s)[i]) by {
        let p = parts[i];
        assert forall|j: int| 0 <= j < p.len() implies p[j] != '\n' by {}
        let l = lines(s)[i];
        assert(l == strip_cr(p) || l == p);
        assert forall|j: int| 0 <= j < l.len() implies l[j] != '\n' by {
            assert(l[j] == p[j]);
        }
    }
}

/// Lines joined by `'\n'`, with a final `'\n'`, are the text `unlines`
/// writes.
pub proof fn lemma_join_newline_unlines(ls: Seq<Seq<char>>)
    requires
        ls.len() > 0,
    ensures
        join_with(ls, "\n"@) + "\n"@ == unlines(ls),
    decreases ls.len(),
{
    reveal_strlit("\n");
    if ls.len() == 1 {
        lemma_unlines_one(ls[0]);
        assert(seq![ls[0]] =~= ls);
    } else {
        let init = ls.drop_last();
        lemma_join_newline_unlines(init);
        lemma_unlines_append(init, seq![ls.last()]);
        lemma_unlines_one(ls.last());
        assert(init + seq![ls.last()] =~= ls);
        assert(join_with(ls, "\n"@) + "\n"@ =~= (join_with(init, "\n"@) + "\n"@) + (ls.last() + seq!['\n']));
    }
}

/// Dropping trailing whitespace does not change the trim.
pub proof fn lemma_trim_drop_ws(l: Seq<char>)
    requires
        l.len() > 0,
        is_ws(l.last()),
    ensures
        trim(l.drop_last()) == trim(l),
{
    let m = l.drop_last();
    if forall|j: int| 0 <= j < l.len() ==> is_ws(#[trigger] l[j]) {
        lemma_trim_start_skip(l, l.len() as int);
        assert(l.subrange(l.len() as int, l.len() as int) =~= Seq::<char>::empty());
        assert forall|j: int| 0 <= j < m.len() implies is_ws(#[trigger] m[j]) by {
            assert(m[j] == l[j]);
        }
        lemma_trim_start_skip(m, m.len() as int);
        assert(m.subrange(m.len() as int, m.len() as int) =~= Seq::<char>::empty());
    } else {
        let k = choose|k: int| 0 <= k < l.len() && !is_ws(#[trigger] l[k]) && forall|j: int| 0 <= j < k ==> is_ws(l[j]);
        assert(exists|k: int| 0 <= k < l.len() && !is_ws(#[trigger] l[k]) && forall|j: int| 0 <= j < k ==> is_ws(l[j])) by {
            lemma_first_non_ws(l);
        }
        assert(k < l.len() - 1);
        lemma_trim_start_skip(l, k);
        assert forall|j: int| 0 <= j < k implies is_ws(#[trigger] m[j]) by {
            assert(m[j] == l[j]);
        }
        lemma_trim_start_skip(m, k);
        let a = l.subrange(k, l.len() as int);
        let b = m.subrange(k, m.len() as int);
        assert(a[0] == l[k]);
        assert(b[0] == l[k]);
        assert(trim_start(a) == a);
        assert(trim_start(b) == b);
        assert(a.drop_last() =~= b);
        assert(a.last() == l.last());
        assert(trim_end(a) == trim_end(a.drop_last()));
    }
}

proof fn lemma_first_non_ws(l: Seq<char>)
    requires
        exists|j: int| 0 <= j < l.len() && !is_ws(#[trigger] l[j]),
    ensures
        exists|k: int| 0 <= k < l.len() && !is_ws(#[trigger] l[k]) && forall|j: int| 0 <= j < k ==> is_ws(l[j]),
    decreases l.len(),
{
    if is_ws(l[0]) {
        let t = l.drop_first();
        let j0 = choose|j: int| 0 <= j < l.len() && !is_ws(#[trigger] l[j]);
        assert(j0 > 0);
        assert(!is_ws(t[j0 - 1]));
        lemma_first_non_ws(t);
        let k = choose|k: int| 0 <= k < t.len() && !is_ws(#[trigger] t[k]) && forall|j: int| 0 <= j < k ==> is_ws(t[j]);
        assert(!is_ws(l[k + 1]));
        assert forall|j: int| 0 <= j < k + 1 implies is_ws(l[j]) by {
            if j > 0 {
                assert(l[j] == t[j - 1]);
            }
        }
    } else {
        assert(forall|j: int| 0 <= j < 0 ==> is_ws(l[j]));
    }
}

pub open spec fn all_plain_lines(ls: Seq<Seq<char>>) -> bool {
    forall|i: int| 0 <= i < ls.len() ==> plain_line(#[trigger] ls[i])
}

pub proof fn lemma_all_plain_lines_append(a: Seq<Seq<char>>, b: Seq<Seq<char>>)
    requires
        all_plain_lines(a),
        all_plain_lines(b),
    ensures
        all_plain_lines(a + b),
{
    assert forall|i: int| 0 <= i < (a + b).len() implies plain_line(#[trigger] (a + b)[i]) by {
        if i < a.len() {
            assert((a + b)[i] == a[i]);
        } else {
            assert((a + b)[i] == b[i - a.len()]);
        }
    }
}

/// A `key = value` line: it is its own trim, and splitting it at the first
/// `'='` gives the key and the value, each padded with one space.
pub proof fn lemma_key_value_line(key: Seq<char>, value: Seq<char>)
    requires
        key.len() > 0,
        !is_ws(key[0]),
        !is_ws(key.last()),
        forall|i: int| 0 <= i < key.len() ==> key[i] != '=',
        value.len() > 0,
        !is_ws(value[0]),
        !is_ws(value.last()),
    ensures
        trim(key + " = "@ + value) == key + " = "@ + value,
        (key + " = "@ + value)[0] == key[0],
        split_once(key + " = "@ + value, '=') == Some((key + seq![' '], seq![' '] + value)),
        trim(key + seq![' ']) == key,
        trim(seq![' '] + value) == value,
{
    reveal_strlit(" = ");
    let line = key + " = "@ + value;
    let n = key.len() as int;
    assert(line[0] == key[0]);
    assert(line.last() == value.last());
    lemma_trim_unpadded(line);
    assert forall|j: int| 0 <= j < n + 1 implies line[j] != '=' by {
        if j < n {
            assert(line[j] == key[j]);
        }
    }
    assert(line[n + 1] == '=');
    lemma_find_char_at(line, '=', n + 1);
    assert(line.subrange(0, n + 1) =~= key + seq![' ']);
    assert(line.subrange(n + 2, line.len() as int) =~= seq![' '] + value);
    lemma_trim_padded(key);
    lemma_trim_padded(value);
}

// ---------------------------------------------------------------------------
// Executable operations
// ---------------------------------------------------------------------------

/// What `str::to_lowercase` returns for the characters `s`: the lowercase
/// mapping of the Unicode Character Database, character by character, with the
/// final-sigma rule; std's tables are not restated here.
pub uninterp spec fn str_lowercase(s: Seq<char>) -> Seq<char>;

/// An ASCII character in lowercase: 'A' to 'Z' become 'a' to 'z', every
/// other character stays.
pub open spec fn ascii_lower_char(c: char) -> char {
    if 'A' <= c && c <= 'Z' {
        ((c as u32) + 32) as char
    } else {
        c
    }
}

/// Every character is ASCII.
pub open spec fn is_ascii_text(s: Seq<char>) -> bool {
    forall|i: int| 0 <= i < s.len() ==> (#[trigger] s[i] as u32) < 128
}

/// `str::to_lowercase`. The contract names its result and, for ASCII text,
/// states it: 'A' to 'Z' map to 'a' to 'z' and every other ASCII character
/// is unchanged. The Unicode case tables beyond ASCII are left unsaid.
#[verifier::external_body]
pub(crate) fn to_lowercase(s: &str) -> (r: String)
    ensures
        r@ == str_lowercase(s@),
        is_ascii_text(s@) ==> r@ == s@.map_values(|c: char| ascii_lower_char(c)),
{
    s.to_lowercase()
}

/// Appends one character to a string (`String::push`).
#[verifier::external_body]
pub(crate) fn push_char(s: &mut String, c: char)
    ensures
        final(s)@ == old(s)@.push(c),
{
    s.push(c);
}

/// The characters of a string slice, in order.
pub fn chars_of(s: &str) -> (v: Vec<char>)
    ensures
        v@ == s@,
{
    let n = s.unicode_len();
    let mut v: Vec<char> = Vec::new();
    let mut i: usize = 0;
    while i < n
        invariant
            n == s@.len(),
            i <= n,
            v@ == s@.subrange(0, i as int),
        decreases n - i,
    {
        v.push(s.get_char(i));
        i = i + 1;
    }
    v
}

/// A `String` holding exactly the characters `v`.
pub fn string_of(v: &[char]) -> (s: String)
    ensures
        s@ == v@,
{
    let mut s = String::new();
    let mut i: usize = 0;
    while i < v.len()
        invariant
            i <= v.len(),
            s@ == v@.subrange(0, i as int),
        decreases v.len() - i,
    {
        push_char(&mut s, v[i]);
        i = i + 1;
    }
    s
}

/// Appends the characters of `t` to `s`.
pub fn push_str(s: &mut String, t: &str)
    ensures
        final(s)@ == old(s)@ + t@,
{
    s.append(t);
}

/// Appends the characters of `t` to `s`.
pub fn push_chars(s: &mut String, t: &[char])
    ensures
        final(s)@ == old(s)@ + t@,
{
    let ghost s0 = s@;
    let mut i: usize = 0;
    while i < t.len()
        invariant
            i <= t.len(),
            s@ == s0 + t@.subrange(0, i as int),
        decreases t.len() - i,
    {
        push_char(s, t[i]);
        i = i + 1;
        assert(t@.subrange(0, i as int) == t@.subrange(0, i - 1 as int).push(t@[i - 1]));
    }
    assert(t@.subrange(0, t.len() as int) == t@);
}

/// The parts joined with `sep` between neighbours.
pub open spec fn join_with(parts: Seq<Seq<char>>, sep: Seq<char>) -> Seq<char>
    decreases parts.len(),
{
    if parts.len() == 0 {
        Seq::empty()
    } else if parts.len() == 1 {
        parts[0]
    } else {
        join_with(parts.drop_last(), sep) + sep + parts.last()
    }
}

/// Appends the strings of `parts` to `s`, separated by `sep`.
pub fn push_joined(s: &mut String, parts: &[String], sep: &str)
    ensures
        final(s)@ == old(s)@ + join_with(parts@.map_values(|p: String| p@), sep@),
{
    let ghost s0 = s@;
    let ghost all = parts@.map_values(|p: String| p@);
    let mut i: usize = 0;
    while i < parts.len()
        invariant
            i <= parts.len(),
            all == parts@.map_values(|p: String| p@),
            s@ == s0 + join_with(all.subrange(0, i as int), sep@),
        decreases parts.len() - i,
    {
        let ghost before = s@;
        if i > 0 {
            push_str(s, sep);
        }
        push_str(s, parts[i].as_str());
        let ghost next = all.subrange(0, i + 1);
        assert(next.drop_last() =~= all.subrange(0, i as int));
        assert(next.last() == parts@[i as int]@);
        if i == 0 {
            assert(join_with(all.subrange(0, 0), sep@) =~= Seq::<char>::empty());
            assert(s@ =~= s0 + join_with(next, sep@));
        } else {
            assert(s@ =~= s0 + join_with(next, sep@));
        }
        i = i + 1;
    }
    assert(all.subrange(0, parts.len() as int) =~= all);
}

/// A fresh `String` holding the characters of `t`.
pub fn owned(t: &str) -> (s: String)
    ensures
        s@ == t@,
{
    let mut s = String::new();
    s.append(t);
    s
}

pub fn is_ws_char(c: char) -> (b: bool)
    ensures
        b == is_ws(c),
{
    let u = c as u32;
    (0x09 <= u && u <= 0x0D) || u == 0x20 || u == 0x85 || u == 0xA0 || u == 0x1680 || (0x2000
        <= u && u <= 0x200A) || u == 0x2028 || u == 0x2029 || u == 0x202F || u == 0x205F || u
        == 0x3000
}

/// Characters `s[from..to]` as a new vector.
pub fn slice_of(s: &[char], from: usize, to: usize) -> (r: Vec<char>)
    requires
        from <= to <= s.len(),
    ensures
        r@ == s@.subrange(from as int, to as int),
{
    let mut r: Vec<char> = Vec::new();
    let mut i = from;
    while i < to
        invariant
            from <= i <= to <= s.len(),
            r@ == s@.subrange(from as int, i as int),
        decreases to - i,
    {
        r.push(s[i]);
        i = i + 1;
    }
    r
}

/// `str::trim` on characters.
pub fn trim_chars(s: &[char]) -> (r: Vec<char>)
    ensures
        r@ == trim(s@),
{
    let n = s.len();
    let mut i: usize = 0;
    while i < n && is_ws_char(s[i])
        invariant
            i <= n == s.len(),
            forall|j: int| 0 <= j < i ==> is_ws(#[trigger] s@[j]),
        decreases n - i,
    {
        i = i + 1;
    }
    proof {
        lemma_trim_start_skip(s@, i as int);
    }
    let ghost t = s@.subrange(i as int, n as int);
    assert(trim_start(t) == t) by {
        if t.len() > 0 {
            assert(t[0] == s@[i as int]);
        }
    }
    let mut j: usize = n;
    while j > i && is_ws_char(s[j - 1])
        invariant
            i <= j <= n == s.len(),
            t == s@.subrange(i as int, n as int),
            forall|k: int| j <= k < n ==> is_ws(#[trigger] s@[k]),
        decreases j,
    {
        j = j - 1;
    }
    proof {
        assert forall|k: int| (j - i) <= k < t.len() implies is_ws(#[trigger] t[k]) by {
            assert(t[k] == s@[k + i]);
        }
        lemma_trim_end_skip(t, (j - i) as int);
        let u = t.subrange(0, (j - i) as int);
        assert(u == s@.subrange(i as int, j as int));
        if u.len() > 0 {
            assert(u.last() == s@[j - 1]);
        }
    }
    slice_of(s, i, j)
}

/// `str::split` on one separator character.
pub fn split_on(s: &[char], sep: char) -> (r: Vec<Vec<char>>)
    ensures
        views(r@) == split_char(s@, sep),
        r.len() >= 1,
{
    let mut r: Vec<Vec<char>> = Vec::new();
    let mut cur: Vec<char> = Vec::new();
    let mut i: usize = 0;
    while i < s.len()
        invariant
            i <= s.len(),
            views(r@).push(cur@) == split_char(s@.subrange(0, i as int), sep),
        decreases s.len() - i,
    {
        let ghost prefix = s@.subrange(0, (i + 1) as int);
        assert(prefix.drop_last() == s@.subrange(0, i as int));
        let c = s[i];
        if c == sep {
            let ghost old_r = views(r@);
            let done = cur;
            r.push(done);
            cur = Vec::new();
            assert(views(r@) =~= old_r.push(done@));
        } else {
            let ghost old_cur = cur@;
            cur.push(c);
            assert(views(r@).push(cur@) == views(r@).push(old_cur).update(
                views(r@).len() as int,
                old_cur.push(c),
            ));
        }
        i = i + 1;
    }
    assert(s@.subrange(0, s.len() as int) == s@);
    let ghost old_r = views(r@);
    r.push(cur);
    assert(views(r@) =~= old_r.push(cur@));
    r
}

/// `str::lines` on characters.
pub fn lines_of(s: &[char]) -> (r: Vec<Vec<char>>)
    ensures
        views(r@) == lines(s@),
{
    let parts = split_on(s, '\n');
    let n = parts.len();
    let mut r: Vec<Vec<char>> = Vec::new();
    let mut i: usize = 0;
    while i + 1 < n
        invariant
            n == parts.len() >= 1,
            views(parts@) == split_char(s@, '\n'),
            i <= n - 1,
            views(r@) == Seq::new(i as nat, |k: int| strip_cr(views(parts@)[k])),
        decreases n - i,
    {
        let p = &parts[i];
        let ghost pv = views(parts@)[i as int];
        assert(p@ == pv);
        let line = if p.len() > 0 && p[p.len() - 1] == '\r' {
            slice_of(p, 0, p.len() - 1)
        } else {
            slice_of(p, 0, p.len())
        };
        assert(line@ == strip_cr(pv)) by {
            if !(p.len() > 0 && p@.last() == '\r') {
                assert(p@.subrange(0, p.len() as int) == p@);
            }
        }
        let ghost old_r = views(r@);
        r.push(line);
        assert(views(r@) =~= old_r.push(line@));
        i = i + 1;
        assert(views(r@) =~= Seq::new(i as nat, |k: int| strip_cr(views(parts@)[k])));
    }
    let last = &parts[n - 1];
    assert(last@ == views(parts@)[n - 1]);
    if last.len() > 0 {
        let ghost old_r = views(r@);
        let l = slice_of(last, 0, last.len());
        assert(last@.subrange(0, last.len() as int) == last@);
        r.push(l);
        assert(views(r@) =~= old_r.push(l@));
    }
    r
}

/// `str::split_whitespace` on characters.
pub fn split_ws_of(s: &[char]) -> (r: Vec<Vec<char>>)
    ensures
        views(r@) == split_ws(s@),
{
    let mut r: Vec<Vec<char>> = Vec::new();
    let mut i: usize = 0;
    while i < s.len()
        invariant
            i <= s.len(),
            views(r@) == split_ws(s@.subrange(0, i as int)),
        decreases s.len() - i,
    {
        let ghost prefix = s@.subrange(0, (i + 1) as int);
        assert(prefix.drop_last() == s@.subrange(0, i as int));
        assert(prefix.last() == s@[i as int]);
        let c = s[i];
        if !is_ws_char(c) {
            if i == 0 || is_ws_char(s[i - 1]) {
                let ghost old_r = views(r@);
                let mut t: Vec<char> = Vec::new();
                t.push(c);
                r.push(t);
                assert(views(r@) =~= old_r.push(seq![c]));
            } else {
                assert(prefix.drop_last().last() == s@[i - 1]);
                let ghost old_r = views(r@);
                proof {
                    lemma_split_ws_nonempty(s@.subrange(0, i as int));
                }
                let k = r.len() - 1;
                let mut t = r.pop().unwrap();
                assert(t@ == old_r[k as int]);
                t.push(c);
                r.push(t);
                assert(views(r@) =~= old_r.update(k as int, old_r[k as int].push(c)));
            }
        }
        i = i + 1;
    }
    assert(s@.subrange(0, s.len() as int) == s@);
    r
}

/// A sequence ending in a non-whitespace character has at least one word.
pub proof fn lemma_split_ws_nonempty(s: Seq<char>)
    requires
        s.len() > 0,
        !is_ws(s.last()),
    ensures
        split_ws(s).len() > 0,
    decreases s.len(),
{
    if !(s.len() == 1 || is_ws(s.drop_last().last())) {
        lemma_split_ws_nonempty(s.drop_last());
    }
}

/// A run of non-whitespace characters is one word.
pub proof fn lemma_split_ws_word(w: Seq<char>)
    requires
        w.len() > 0,
        forall|i: int| 0 <= i < w.len() ==> !is_ws(#[trigger] w[i]),
    ensures
        split_ws(w) == seq![w],
    decreases w.len(),
{
    if w.len() > 1 {
        let init = w.drop_last();
        assert forall|i: int| 0 <= i < init.len() implies !is_ws(#[trigger] init[i]) by {
            assert(init[i] == w[i]);
        }
        lemma_split_ws_word(init);
        assert(!is_ws(w.last()));
        assert(!is_ws(init.last()));
        assert(init.push(w.last()) =~= w);
        assert(seq![init].update(0, init.push(w.last())) =~= seq![w]);
    } else {
        assert(w.drop_last() =~= Seq::<char>::empty());
        assert(split_ws(w.drop_last()) =~= Seq::<Seq<char>>::empty());
        assert(seq![w.last()] =~= w);
        assert(Seq::<Seq<char>>::empty().push(seq![w.last()]) =~= seq![w]);
    }
}

/// Words on either side of a space are split apart.
pub proof fn lemma_split_ws_join(x: Seq<char>, y: Seq<char>)
    ensures
        split_ws(x + seq![' '] + y) == split_ws(x) + split_ws(y),
    decreases y.len(),
{
    let z = x + seq![' '] + y;
    let a = split_ws(x);
    if y.len() == 0 {
        assert(z.drop_last() =~= x);
        assert(is_ws(z.last()));
        assert(a + split_ws(y) =~= a);
    } else {
        let yi = y.drop_last();
        assert(z.drop_last() =~= x + seq![' '] + yi);
        lemma_split_ws_join(x, yi);
        let b = split_ws(yi);
        let c = y.last();
        assert(z.last() == c);
        if is_ws(c) {
        } else if yi.len() == 0 {
            assert(z.drop_last().last() == ' ');
            assert(split_ws(y) == Seq::<Seq<char>>::empty().push(seq![c])) by {
                assert(y.drop_last() =~= Seq::<char>::empty());
            }
            assert(b =~= Seq::<Seq<char>>::empty());
            assert((a + b).push(seq![c]) =~= a + split_ws(y));
        } else {
            assert(z.drop_last().last() == yi.last());
            if is_ws(yi.last()) {
                assert((a + b).push(seq![c]) =~= a + b.push(seq![c]));
            } else {
                lemma_split_ws_nonempty(yi);
                assert((a + b).update((a + b).len() - 1, (a + b).last().push(c)) =~= a + b.update(
                    b.len() - 1,
                    b.last().push(c),
                ));
            }
        }
    }
}

/// Index of the first `c` in `s`.
pub fn find_char_in(s: &[char], c: char) -> (r: Option<usize>)
    ensures
        match r {
            Some(i) => find_char(s@, c) == Some(i as nat),
            None => find_char(s@, c) == None::<nat>,
        },
{
    let mut i: usize = 0;
    while i < s.len()
        invariant
            i <= s.len(),
            forall|j: int| 0 <= j < i ==> s@[j] != c,
        decreases s.len() - i,
    {
        if s[i] == c {
            proof {
                lemma_find_char_at(s@, c, i as int);
            }
            return Some(i);
        }
        i = i + 1;
    }
    proof {
        lemma_find_char_none(s@, c);
    }
    None
}

/// `str::split_once` on one character.
pub fn split_once_of(s: &[char], c: char) -> (r: Option<(Vec<char>, Vec<char>)>)
    ensures
        match r {
            Some(p) => split_once(s@, c) == Some((p.0@, p.1@)),
            None => split_once(s@, c) is None,
        },
{
    match find_char_in(s, c) {
        Some(i) => {
            proof {
                lemma_find_char(s@, c);
            }
            assert(i < s.len());
            Some((slice_of(s, 0, i), slice_of(s, i + 1, s.len())))
        },
        None => None,
    }
}

/// Character-wise equality.
pub fn chars_eq(a: &[char], b: &[char]) -> (r: bool)
    ensures
        r == (a@ == b@),
{
    if a.len() != b.len() {
        return false;
    }
    let mut i: usize = 0;
    while i < a.len()
        invariant
            i <= a.len() == b.len(),
            forall|j: int| 0 <= j < i ==> a@[j] == b@[j],
        decreases a.len() - i,
    {
        if a[i] != b[i] {
            return false;
        }
        i = i + 1;
    }
    assert(a@ =~= b@);
    true
}

/// `s` equals the literal `lit`.
pub fn eq_str(s: &[char], lit: &str) -> (r: bool)
    ensures
        r == (s@ == lit@),
{
    let l = chars_of(lit);
    chars_eq(s, &l)
}

/// `s` starts with `p`.
pub fn starts_with_of(s: &[char], p: &[char]) -> (r: bool)
    ensures
        r == starts_with(s@, p@),
{
    if p.len() > s.len() {
        return false;
    }
    let mut i: usize = 0;
    while i < p.len()
        invariant
            i <= p.len() <= s.len(),
            forall|j: int| 0 <= j < i ==> s@[j] == p@[j],
        decreases p.len() - i,
    {
        if s[i] != p[i] {
            assert(s@.subrange(0, p.len() as int)[i as int] == s@[i as int]);
            return false;
        }
        i = i + 1;
    }
    assert(s@.subrange(0, p.len() as int) =~= p@);
    true
}

/// `s` starts with the literal `lit`.
pub fn starts_with_str(s: &[char], lit: &str) -> (r: bool)
    ensures
        r == starts_with(s@, lit@),
{
    let l = chars_of(lit);
    starts_with_of(s, &l)
}

/// `s` ends with `p`.
pub fn ends_with_of(s: &[char], p: &[char]) -> (r: bool)
    ensures
        r == ends_with(s@, p@),
{
    if p.len() > s.len() {
        return false;
    }
    let off = s.len() - p.len();
    let mut i: usize = 0;
    while i < p.len()
        invariant
            i <= p.len() <= s.len(),
            off == s.len() - p.len(),
            forall|j: int| 0 <= j < i ==> s@[off + j] == p@[j],
        decreases p.len() - i,
    {
        if s[off + i] != p[i] {
            assert(s@.subrange(off as int, s.len() as int)[i as int] == s@[off + i]);
            return false;
        }
        i = i + 1;
    }
    assert(s@.subrange(off as int, s.len() as int) =~= p@);
    true
}

/// `p` occurs somewhere in `s`.
pub fn contains_of(s: &[char], p: &[char]) -> (r: bool)
    ensures
        r == contains_seq(s@, p@),
{
    if p.len() > s.len() {
        return false;
    }
    let mut i: usize = 0;
    let last = s.len() - p.len();
    while i <= last
        invariant
            p.len() <= s.len(),
            last == s.len() - p.len(),
            i <= last + 1,
            forall|k: int| 0 <= k < i ==> #[trigger] s@.subrange(k, k + p.len()) != p@,
        decreases s.len() - i,
    {
        let mut j: usize = 0;
        let mut ok = true;
        while j < p.len()
            invariant
                j <= p.len(),
                i + p.len() <= s.len(),
                ok ==> forall|m: int| 0 <= m < j ==> s@[i + m] == p@[m],
                !ok ==> s@.subrange(i as int, i + p.len()) != p@,
            decreases p.len() - j,
        {
            if s[i + j] != p[j] {
                assert(s@.subrange(i as int, i + p.len())[j as int] == s@[i + j]);
                ok = false;
            }
            j = j + 1;
        }
        if ok {
            assert(s@.subrange(i as int, i + p.len()) =~= p@);
            return true;
        }
        if i == last {
            return false;
        }
        i = i + 1;
    }
    false
}

/// `s` contains the literal `lit`.
pub fn contains_str(s: &[char], lit: &str) -> (r: bool)
    ensures
        r == contains_seq(s@, lit@),
{
    let l = chars_of(lit);
    contains_of(s, &l)
}

/// `s` contains the character `c`.
pub fn has_char_of(s: &[char], c: char) -> (r: bool)
    ensures
        r == has_char(s@, c),
{
    let mut i: usize = 0;
    while i < s.len()
        invariant
            i <= s.len(),
            forall|j: int| 0 <= j < i ==> s@[j] != c,
        decreases s.len() - i,
    {
        if s[i] == c {
            return true;
        }
        i = i + 1;
    }
    false
}

} // verus!
