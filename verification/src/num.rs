//! Decimal and hexadecimal rendering and parsing of integers.
use vstd::prelude::*;

use crate::text::push_char;

verus! {

pub open spec fn is_digit(c: char) -> bool {
    48 <= (c as u32) && (c as u32) <= 57
}

pub open spec fn digit_val(c: char) -> nat {
    ((c as u32) - 48) as nat
}

pub open spec fn all_digits(s: Seq<char>) -> bool {
    forall|i: int| 0 <= i < s.len() ==> is_digit(#[trigger] s[i])
}

/// The value of a string of decimal digits.
pub open spec fn digits_value(s: Seq<char>) -> nat
    decreases s.len(),
{
    if s.len() == 0 {
        0
    } else {
        digits_value(s.drop_last()) * 10 + digit_val(s.last())
    }
}

/// Unsigned parse as `u32::from_str` / `u64::from_str` do it, for a bound
/// `max`: an optional `'+'`, then one or more ASCII digits, value at most `max`.
pub open spec fn parse_nat_max(s: Seq<char>, max: nat) -> Option<nat> {
    let body = if s.len() > 0 && s[0] == '+' {
        s.drop_first()
    } else {
        s
    };
    if body.len() > 0 && all_digits(body) && digits_value(body) <= max {
        Some(digits_value(body))
    } else {
        None
    }
}

/// `s.parse::<u32>()`.
pub open spec fn parse_u32(s: Seq<char>) -> Option<u32> {
    match parse_nat_max(s, u32::MAX as nat) {
        Some(n) => Some(n as u32),
        None => None,
    }
}

/// `s.parse::<u64>()`.
pub open spec fn parse_u64(s: Seq<char>) -> Option<u64> {
    match parse_nat_max(s, u64::MAX as nat) {
        Some(n) => Some(n as u64),
        None => None,
    }
}

/// `s.parse::<i32>()`: an optional sign, then one or more ASCII digits,
/// the value within `i32`.
pub open spec fn parse_i32(s: Seq<char>) -> Option<i32> {
    if s.len() > 0 && s[0] == '-' {
        let body = s.drop_first();
        if body.len() > 0 && all_digits(body) && digits_value(body) <= 0x8000_0000 {
            Some((0 - digits_value(body)) as i32)
        } else {
            None
        }
    } else {
        match parse_nat_max(s, i32::MAX as nat) {
            Some(n) => Some(n as i32),
            None => None,
        }
    }
}

pub open spec fn digit_char(d: nat) -> char {
    if d == 0 {
        '0'
    } else if d == 1 {
        '1'
    } else if d == 2 {
        '2'
    } else if d == 3 {
        '3'
    } else if d == 4 {
        '4'
    } else if d == 5 {
        '5'
    } else if d == 6 {
        '6'
    } else if d == 7 {
        '7'
    } else if d == 8 {
        '8'
    } else {
        '9'
    }
}

/// Decimal rendering of a natural number (no leading zeros).
pub open spec fn nat_str(n: nat) -> Seq<char>
    decreases n,
{
    if n < 10 {
        seq![digit_char(n)]
    } else {
        nat_str(n / 10).push(digit_char(n % 10))
    }
}

/// Decimal rendering of an integer, `'-'` first when negative.
pub open spec fn int_str(i: int) -> Seq<char> {
    if i < 0 {
        seq!['-'] + nat_str((0 - i) as nat)
    } else {
        nat_str(i as nat)
    }
}

/// `s` left-padded with `'0'` to at least `w` characters.
pub open spec fn zero_pad(s: Seq<char>, w: nat) -> Seq<char> {
    if s.len() < w {
        Seq::new((w - s.len()) as nat, |i: int| '0') + s
    } else {
        s
    }
}

pub open spec fn hex_char(d: nat) -> char {
    if d < 10 {
        digit_char(d)
    } else if d == 10 {
        'a'
    } else if d == 11 {
        'b'
    } else if d == 12 {
        'c'
    } else if d == 13 {
        'd'
    } else if d == 14 {
        'e'
    } else {
        'f'
    }
}

/// Lowercase hexadecimal, two characters per byte.
pub open spec fn hex_str(b: Seq<u8>) -> Seq<char>
    decreases b.len(),
{
    if b.len() == 0 {
        Seq::empty()
    } else {
        hex_str(b.drop_last()).push(hex_char((b.last() / 16) as nat)).push(
            hex_char((b.last() % 16) as nat),
        )
    }
}

pub proof fn lemma_digits_value_prefix(s: Seq<char>, i: int)
    requires
        0 <= i <= s.len(),
    ensures
        digits_value(s.subrange(0, i)) <= digits_value(s),
    decreases s.len() - i,
{
    if i < s.len() {
        lemma_digits_value_prefix(s.drop_last(), i);
        assert(s.drop_last().subrange(0, i) == s.subrange(0, i));
    } else {
        assert(s.subrange(0, i) == s);
    }
}

/// The decimal rendering of `n` is a run of digits worth `n`.
pub proof fn lemma_nat_str_digits(n: nat)
    ensures
        nat_str(n).len() > 0,
        all_digits(nat_str(n)),
        digits_value(nat_str(n)) == n,
    decreases n,
{
    if n < 10 {
        assert(digits_value(nat_str(n).drop_last()) == 0) by {
            assert(nat_str(n).drop_last() =~= Seq::<char>::empty());
        }
    } else {
        let p = nat_str(n / 10);
        lemma_nat_str_digits(n / 10);
        let d = n % 10;
        assert(nat_str(n) == p.push(digit_char(d)));
        assert(p.push(digit_char(d)).drop_last() =~= p);
        assert(digit_val(digit_char(d)) == d);
        assert((n / 10) * 10 + d == n) by (nonlinear_arith)
            requires
                d == n % 10,
        ;
    }
}

/// `parse::<i32>` reads back what `int_str` wrote.
pub proof fn lemma_parse_int_str(x: i32)
    ensures
        parse_i32(int_str(x as int)) == Some(x),
{
    if x < 0 {
        let body = nat_str((0 - x) as nat);
        lemma_nat_str_digits((0 - x) as nat);
        let s = seq!['-'] + body;
        assert(s.drop_first() =~= body);
        assert(s[0] == '-');
    } else {
        let s = nat_str(x as nat);
        lemma_nat_str_digits(x as nat);
        assert(is_digit(s[0]));
        assert(s[0] != '-' && s[0] != '+');
    }
}

/// `parse::<u32>` reads back the decimal rendering of a `u32`.
pub proof fn lemma_parse_nat_str(x: u32)
    ensures
        parse_u32(nat_str(x as nat)) == Some(x),
{
    let s = nat_str(x as nat);
    lemma_nat_str_digits(x as nat);
    assert(is_digit(s[0]));
}

pub fn digit_char_of(d: u64) -> (c: char)
    requires
        d < 10,
    ensures
        c == digit_char(d as nat),
{
    match d {
        0 => '0',
        1 => '1',
        2 => '2',
        3 => '3',
        4 => '4',
        5 => '5',
        6 => '6',
        7 => '7',
        8 => '8',
        _ => '9',
    }
}

pub fn hex_char_of(d: u8) -> (c: char)
    requires
        d < 16,
    ensures
        c == hex_char(d as nat),
{
    if d < 10 {
        digit_char_of(d as u64)
    } else {
        match d {
            10 => 'a',
            11 => 'b',
            12 => 'c',
            13 => 'd',
            14 => 'e',
            _ => 'f',
        }
    }
}

/// Appends the decimal rendering of `n` to `s`.
pub fn push_nat(s: &mut String, n: u64)
    ensures
        final(s)@ == old(s)@ + nat_str(n as nat),
    decreases n,
{
    if n < 10 {
        push_char(s, digit_char_of(n));
        assert(old(s)@.push(digit_char(n as nat)) == old(s)@ + seq![digit_char(n as nat)]);
    } else {
        push_nat(s, n / 10);
        push_char(s, digit_char_of(n % 10));
        assert(old(s)@ + nat_str((n / 10) as nat).push(digit_char((n % 10) as nat)) == (old(s)@
            + nat_str((n / 10) as nat)).push(digit_char((n % 10) as nat)));
    }
}

/// Appends the decimal rendering of `n` to `s`.
pub fn push_int(s: &mut String, n: i64)
    ensures
        final(s)@ == old(s)@ + int_str(n as int),
{
    if n < 0 {
        push_char(s, '-');
        let m: u64 = if n == i64::MIN {
            0x8000_0000_0000_0000u64
        } else {
            (0 - n) as u64
        };
        push_nat(s, m);
        assert(old(s)@.push('-') + nat_str(m as nat) == old(s)@ + (seq!['-'] + nat_str(
            m as nat,
        )));
    } else {
        push_nat(s, n as u64);
    }
}

/// The decimal rendering of `n`.
pub fn nat_string(n: u64) -> (s: String)
    ensures
        s@ == nat_str(n as nat),
{
    let mut s = String::new();
    push_nat(&mut s, n);
    assert(Seq::<char>::empty() + nat_str(n as nat) == nat_str(n as nat));
    s
}

/// Appends the decimal rendering of `n`, left-padded with zeros to `w` characters.
pub fn push_nat_padded(s: &mut String, n: u64, w: usize)
    ensures
        final(s)@ == old(s)@ + zero_pad(nat_str(n as nat), w as nat),
{
    let d = nat_string(n);
    let len = d.unicode_len();
    if len < w {
        let mut k: usize = 0;
        let ghost s0 = s@;
        while k < w - len
            invariant
                len < w,
                k <= w - len,
                s@ == s0 + Seq::new(k as nat, |i: int| '0'),
            decreases w - len - k,
        {
            push_char(s, '0');
            k = k + 1;
            assert(s@ =~= s0 + Seq::new(k as nat, |i: int| '0'));
        }
        crate::text::push_str(s, d.as_str());
        assert(s@ =~= s0 + zero_pad(nat_str(n as nat), w as nat));
    } else {
        crate::text::push_str(s, d.as_str());
    }
}

/// Appends the lowercase hexadecimal rendering of `b`.
pub fn push_hex(s: &mut String, b: &[u8])
    ensures
        final(s)@ == old(s)@ + hex_str(b@),
{
    let ghost s0 = s@;
    let mut i: usize = 0;
    while i < b.len()
        invariant
            i <= b.len(),
            s@ == s0 + hex_str(b@.subrange(0, i as int)),
        decreases b.len() - i,
    {
        let x = b[i];
        push_char(s, hex_char_of(x / 16));
        push_char(s, hex_char_of(x % 16));
        let ghost p = b@.subrange(0, (i + 1) as int);
        assert(p.drop_last() == b@.subrange(0, i as int));
        assert(p.last() == x);
        i = i + 1;
        assert(s@ =~= s0 + hex_str(b@.subrange(0, i as int)));
    }
    assert(b@.subrange(0, b.len() as int) == b@);
}

/// Parses an optional `'+'` followed by decimal digits, bounded by `max`.
pub fn parse_nat_chars(s: &[char], max: u64) -> (r: Option<u64>)
    ensures
        match r {
            Some(n) => parse_nat_max(s@, max as nat) == Some(n as nat),
            None => parse_nat_max(s@, max as nat) is None,
        },
{
    let start: usize = if s.len() > 0 && s[0] == '+' {
        1
    } else {
        0
    };
    let ghost body = if s@.len() > 0 && s@[0] == '+' {
        s@.drop_first()
    } else {
        s@
    };
    assert(body == s@.subrange(start as int, s.len() as int));
    if start == s.len() {
        return None;
    }
    let mut acc: u64 = 0;
    let mut i: usize = start;
    while i < s.len()
        invariant
            start <= i <= s.len(),
            body == s@.subrange(start as int, s.len() as int),
            body == (if s@.len() > 0 && s@[0] == '+' {
                s@.drop_first()
            } else {
                s@
            }),
            body.len() > 0,
            all_digits(s@.subrange(start as int, i as int)),
            acc as nat == digits_value(s@.subrange(start as int, i as int)),
            acc <= max,
        decreases s.len() - i,
    {
        let c = s[i];
        let u = c as u32;
        let ghost p = s@.subrange(start as int, (i + 1) as int);
        assert(p.drop_last() == s@.subrange(start as int, i as int));
        assert(p.last() == c);
        if u < 48 || u > 57 {
            assert(body[i - start] == c);
            assert(!is_digit(body[i - start]));
            assert(!all_digits(body));
            return None;
        }
        let d = (u - 48) as u64;
        if d > max || acc > (max - d) / 10 {
            proof {
                assert(digits_value(p) == acc * 10 + d);
                assert(acc * 10 + d > max) by (nonlinear_arith)
                    requires
                        d > max || acc > (max - d) / 10,
                        d <= 9,
                ;
                if all_digits(body) {
                    lemma_digits_value_prefix(body, (i + 1 - start) as int);
                    assert(body.subrange(0, (i + 1 - start) as int) == p);
                }
            }
            return None;
        }
        proof {
            assert(acc * 10 + d <= max) by (nonlinear_arith)
                requires
                    acc <= (max - d) / 10,
                    d <= max,
            ;
        }
        acc = acc * 10 + d;
        i = i + 1;
        assert(all_digits(s@.subrange(start as int, i as int))) by {
            assert forall|k: int| 0 <= k < p.len() implies is_digit(#[trigger] p[k]) by {
                if k < p.len() - 1 {
                    assert(p[k] == p.drop_last()[k]);
                }
            }
        }
    }
    assert(s@.subrange(start as int, s.len() as int) == body);
    Some(acc)
}

/// `s.parse::<u32>()`.
pub fn parse_u32_of(s: &[char]) -> (r: Option<u32>)
    ensures
        r == parse_u32(s@),
{
    match parse_nat_chars(s, 0xFFFF_FFFF) {
        Some(n) => Some(n as u32),
        None => None,
    }
}

/// `s.parse::<u64>()`.
pub fn parse_u64_of(s: &[char]) -> (r: Option<u64>)
    ensures
        r == parse_u64(s@),
{
    parse_nat_chars(s, 0xFFFF_FFFF_FFFF_FFFF)
}

/// `s.parse::<i32>()`.
pub fn parse_i32_of(s: &[char]) -> (r: Option<i32>)
    ensures
        r == parse_i32(s@),
{
    if s.len() > 0 && s[0] == '-' {
        let rest = crate::text::slice_of(s, 1, s.len());
        assert(rest@ == s@.drop_first());
        if rest.len() > 0 && rest[0] == '+' {
            assert(!is_digit(rest@[0]));
            return None;
        }
        assert(parse_nat_max(rest@, 0x8000_0000) == (if rest@.len() > 0 && all_digits(rest@)
            && digits_value(rest@) <= 0x8000_0000 {
            Some(digits_value(rest@))
        } else {
            None
        }));
        match parse_nat_chars(&rest, 0x8000_0000) {
            Some(n) => Some((0 - (n as i64)) as i32),
            None => None,
        }
    } else {
        match parse_nat_chars(s, 0x7FFF_FFFF) {
            Some(n) => Some(n as i32),
            None => None,
        }
    }
}

} // verus!
