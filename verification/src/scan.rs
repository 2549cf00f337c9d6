//! The text operations on slices of characters.

use vstd::prelude::*;
use vstd::slice::slice_subrange;
use crate::text;

verus! {

/// `String::push`, which appends one character to the string: the text
/// after the call is the text before it with `ch` at its end.
pub assume_specification[ String::push ](s: &mut String, ch: char)
    ensures
        final(s)@ == old(s)@.push(ch),
;

/// The characters of `s`, in order.
pub fn chars_of(s: &str) -> (v: Vec<char>)
    ensures
        v@ == s@,
{
    let mut v: Vec<char> = Vec::new();
    for c in it: s.chars()
        invariant
            v@ == it.seq().take(it.index()),
            it.seq() == s@,
    {
        v.push(c);
    }
    v
}

/// The string that holds the characters of `v`, in order.
pub fn string_of(v: &[char]) -> (s: String)
    ensures
        s@ == v@,
{
    let mut s = String::new();
    let mut i: usize = 0;
    while i < v.len()
        invariant
            i <= v.len(),
            s@ == v@.take(i as int),
        decreases v.len() - i,
    {
        s.push(v[i]);
        i += 1;
    }
    s
}

/// Whether `c` is white space.
pub fn is_whitespace(c: char) -> (b: bool)
    ensures
        b == text::is_whitespace(c),
{
    let n: u32 = c as u32;
    (0x09 <= n && n <= 0x0D) || n == 0x20 || n == 0x85 || n == 0xA0 || n == 0x1680 || (0x2000 <= n
        && n <= 0x200A) || n == 0x2028 || n == 0x2029 || n == 0x202F || n == 0x205F || n == 0x3000
}

/// Whether `pat` stands in `s` at position `i`.
pub fn occurs_at(s: &[char], pat: &[char], i: usize) -> (b: bool)
    ensures
        b == text::occurs_at(s@, pat@, i as int),
{
    if pat.len() > s.len() || i > s.len() - pat.len() {
        return false;
    }
    let mut k: usize = 0;
    while k < pat.len()
        invariant
            k <= pat.len(),
            i + pat.len() <= s.len(),
            forall|j: int| 0 <= j < k ==> s@[i + j] == pat@[j],
        decreases pat.len() - k,
    {
        if s[i + k] != pat[k] {
            assert(s@.subrange(i as int, i + pat.len())[k as int] == s@[i + k]);
            return false;
        }
        k += 1;
    }
    assert(s@.subrange(i as int, i + pat.len()) =~= pat@);
    true
}

/// Whether `a` and `b` hold the same characters.
pub fn equal(a: &[char], b: &[char]) -> (r: bool)
    ensures
        r == (a@ == b@),
{
    if a.len() != b.len() {
        return false;
    }
    let same = occurs_at(a, b, 0);
    assert(a@.subrange(0, a@.len() as int) =~= a@);
    same
}

/// The first position at which `pat` stands in `s`.
pub fn find(s: &[char], pat: &[char]) -> (r: Option<usize>)
    ensures
        match r {
            Some(i) => text::find(s@, pat@) == Some(i as int),
            None => text::find(s@, pat@) is None,
        },
{
    if pat.len() > s.len() {
        return None;
    }
    let last: usize = s.len() - pat.len();
    let mut i: usize = 0;
    loop
        invariant
            i <= last,
            last + pat.len() == s.len(),
            text::find(s@, pat@) == text::find_from(s@, pat@, i as int),
        decreases last - i,
    {
        if occurs_at(s, pat, i) {
            return Some(i);
        }
        if i == last {
            assert(text::find_from(s@, pat@, i + 1) is None);
            return None;
        }
        i += 1;
    }
}

/// Whether `pat` stands somewhere in `s`.
pub fn contains(s: &[char], pat: &[char]) -> (b: bool)
    ensures
        b == text::contains(s@, pat@),
{
    proof {
        text::lemma_find(s@, pat@);
    }
    find(s, pat).is_some()
}

/// Whether `s` begins with `pat`.
pub fn starts_with(s: &[char], pat: &[char]) -> (b: bool)
    ensures
        b == text::starts_with(s@, pat@),
{
    occurs_at(s, pat, 0)
}

/// `s` without its leading white space.
pub fn trim_start<'a>(s: &'a [char]) -> (r: &'a [char])
    ensures
        r@ == text::trim_start(s@),
{
    let mut a: usize = 0;
    assert(s@.skip(0) =~= s@);
    while a < s.len() && is_whitespace(s[a])
        invariant
            a <= s.len(),
            text::trim_start(s@) == text::trim_start(s@.skip(a as int)),
        decreases s.len() - a,
    {
        assert(s@.skip(a as int).drop_first() =~= s@.skip(a + 1));
        a += 1;
    }
    slice_subrange(s, a, s.len())
}

/// `s` without its trailing white space.
pub fn trim_end<'a>(s: &'a [char]) -> (r: &'a [char])
    ensures
        r@ == text::trim_end(s@),
{
    let mut b: usize = s.len();
    assert(s@.take(s.len() as int) =~= s@);
    while b > 0 && is_whitespace(s[b - 1])
        invariant
            b <= s.len(),
            text::trim_end(s@) == text::trim_end(s@.take(b as int)),
        decreases b,
    {
        assert(s@.take(b as int).drop_last() =~= s@.take(b - 1));
        b -= 1;
    }
    slice_subrange(s, 0, b)
}

/// `s` without its leading and trailing white space.
pub fn trim<'a>(s: &'a [char]) -> (r: &'a [char])
    ensures
        r@ == text::trim(s@),
{
    trim_end(trim_start(s))
}

/// `s` without the runs of `c` at its start and at its end.
pub fn trim_matches<'a>(s: &'a [char], c: char) -> (r: &'a [char])
    ensures
        r@ == text::trim_matches(s@, c),
{
    let mut a: usize = 0;
    assert(s@.skip(0) =~= s@);
    while a < s.len() && s[a] == c
        invariant
            a <= s.len(),
            text::strip_start(s@, c) == text::strip_start(s@.skip(a as int), c),
        decreases s.len() - a,
    {
        assert(s@.skip(a as int).drop_first() =~= s@.skip(a + 1));
        a += 1;
    }
    let t = slice_subrange(s, a, s.len());
    let mut b: usize = t.len();
    assert(t@.take(t.len() as int) =~= t@);
    while b > 0 && t[b - 1] == c
        invariant
            b <= t.len(),
            text::strip_end(t@, c) == text::strip_end(t@.take(b as int), c),
        decreases b,
    {
        assert(t@.take(b as int).drop_last() =~= t@.take(b - 1));
        b -= 1;
    }
    slice_subrange(t, 0, b)
}

/// The number of characters of `s` before the first `c`; the length of `s`
/// where it holds no `c`.
pub fn index_of(s: &[char], c: char) -> (n: usize)
    ensures
        n == text::index_of(s@, c),
        n <= s.len(),
{
    let mut n: usize = 0;
    assert(s@.skip(0) =~= s@);
    while n < s.len() && s[n] != c
        invariant
            n <= s.len(),
            text::index_of(s@, c) == n + text::index_of(s@.skip(n as int), c),
        decreases s.len() - n,
    {
        assert(s@.skip(n as int).drop_first() =~= s@.skip(n + 1));
        n += 1;
    }
    n
}

/// The lines of `s`.
pub fn lines<'a>(s: &'a [char]) -> (r: Vec<&'a [char]>)
    ensures
        text::views(r@) == text::lines(s@),
{
    let mut out: Vec<&'a [char]> = Vec::new();
    let mut pos: usize = 0;
    assert(s@.skip(0) =~= s@);
    while pos < s.len()
        invariant
            pos <= s.len(),
            text::lines(s@) =~= text::views(out@) + text::lines(s@.skip(pos as int)),
        decreases s.len() - pos,
    {
        let rest = slice_subrange(s, pos, s.len());
        assert(rest@ =~= s@.skip(pos as int));
        let n = index_of(rest, '\n');
        let ghost before = out@;
        if n < rest.len() {
            let raw = slice_subrange(rest, 0, n);
            let line = if n > 0 && raw[n - 1] == '\r' {
                slice_subrange(raw, 0, n - 1)
            } else {
                raw
            };
            assert(raw@ =~= rest@.take(n as int));
            assert(line@ =~= text::without_cr(rest@.take(n as int)));
            assert(rest@.skip(n + 1) =~= s@.skip(pos + n + 1));
            out.push(line);
            assert(text::views(out@) =~= text::views(before) + seq![line@]);
            pos = pos + n + 1;
        } else {
            out.push(rest);
            assert(text::views(out@) =~= text::views(before) + seq![rest@]);
            pos = s.len();
        }
    }
    out
}

/// The piece number `k`, counted from 0, of `s` cut at every `sep`.
pub fn field<'a>(s: &'a [char], sep: char, k: usize) -> (r: Option<&'a [char]>)
    ensures
        text::view_of(r) == text::field(s@, sep, k as nat),
{
    let mut rest: &'a [char] = s;
    let mut left: usize = k;
    loop
        invariant
            text::field(s@, sep, k as nat) == text::field(rest@, sep, left as nat),
        decreases left,
    {
        let n = index_of(rest, sep);
        if left == 0 {
            let piece = slice_subrange(rest, 0, n);
            assert(piece@ =~= rest@.take(n as int));
            return Some(piece);
        }
        if n >= rest.len() {
            return None;
        }
        let tail = slice_subrange(rest, n + 1, rest.len());
        assert(tail@ =~= rest@.skip(n + 1));
        rest = tail;
        left -= 1;
    }
}

/// The number of characters of `s` before its first white space; the length
/// of `s` where it holds none.
pub fn word_len(s: &[char]) -> (n: usize)
    ensures
        n == text::word_len(s@),
        n <= s.len(),
{
    let mut n: usize = 0;
    assert(s@.skip(0) =~= s@);
    while n < s.len() && !is_whitespace(s[n])
        invariant
            n <= s.len(),
            text::word_len(s@) == n + text::word_len(s@.skip(n as int)),
        decreases s.len() - n,
    {
        assert(s@.skip(n as int).drop_first() =~= s@.skip(n + 1));
        n += 1;
    }
    n
}

/// The word number `k`, counted from 0, of `s`.
pub fn word<'a>(s: &'a [char], k: usize) -> (r: Option<&'a [char]>)
    ensures
        text::view_of(r) == text::word(s@, k as nat),
{
    let mut rest: &'a [char] = s;
    let mut left: usize = k;
    loop
        invariant
            text::word(s@, k as nat) == text::word(rest@, left as nat),
        decreases left,
    {
        let t = trim_start(rest);
        if t.len() == 0 {
            return None;
        }
        let n = word_len(t);
        if left == 0 {
            let piece = slice_subrange(t, 0, n);
            assert(piece@ =~= t@.take(n as int));
            return Some(piece);
        }
        let tail = slice_subrange(t, n, t.len());
        assert(tail@ =~= t@.skip(n as int));
        rest = tail;
        left -= 1;
    }
}

/// The number that the digit `c` writes; nothing where `c` is no digit.
pub fn digit_value(c: char) -> (r: Option<u8>)
    ensures
        r is Some <==> text::is_digit(c),
        r matches Some(d) ==> d == text::digit_value(c) && d < 10,
{
    let n: u32 = c as u32;
    if 48 <= n && n <= 57 {
        Some((n - 48) as u8)
    } else {
        None
    }
}

/// `s` read as a decimal number.
pub fn parse_u64(s: &[char]) -> (r: Option<u64>)
    ensures
        r == text::parse_u64(s@),
{
    let digits = if s.len() > 0 && s[0] == '+' {
        slice_subrange(s, 1, s.len())
    } else {
        s
    };
    assert(digits@ =~= text::without_plus(s@));
    if digits.len() == 0 {
        return None;
    }
    let mut value: u64 = 0;
    let mut i: usize = 0;
    assert(digits@.take(0) =~= Seq::<char>::empty());
    while i < digits.len()
        invariant
            i <= digits.len(),
            digits@.len() > 0,
            digits@ == text::without_plus(s@),
            value == text::digits_value(digits@.take(i as int)),
            forall|j: int| 0 <= j < i ==> text::is_digit(digits@[j]),
        decreases digits.len() - i,
    {
        let d: u64 = match digit_value(digits[i]) {
            Some(d) => d as u64,
            None => {
                assert(!text::is_digit(digits@[i as int]));
                return None;
            },
        };
        proof {
            assert(digits@.take(i + 1).drop_last() =~= digits@.take(i as int));
            assert(text::digits_value(digits@.take(i + 1)) == value * 10 + d);
            text::lemma_digits_value_prefix(digits@, i + 1);
        }
        if value > (u64::MAX - d) / 10 {
            return None;
        }
        value = value * 10 + d;
        i += 1;
    }
    assert(digits@.take(digits.len() as int) =~= digits@);
    Some(value)
}

/// The character that writes the digit `d`.
fn digit_char(d: u8) -> (c: char)
    requires
        d < 10,
    ensures
        c == text::digit_char(d as nat),
{
    (48u8 + d) as char
}

/// `n` written in decimal digits.
pub fn decimal(n: u64) -> (r: Vec<char>)
    ensures
        r@ == text::decimal(n as nat),
    decreases n,
{
    if n < 10 {
        let mut v: Vec<char> = Vec::new();
        v.push(digit_char(n as u8));
        assert(v@ =~= seq![text::digit_char(n as nat)]);
        v
    } else {
        let mut v = decimal(n / 10);
        v.push(digit_char((n % 10) as u8));
        v
    }
}

} // verus!
