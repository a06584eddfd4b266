//! Character-level scanning used by the ringtone parser: finding a
//! separator, trimming whitespace, and reading an unsigned decimal
//! number, each as a spec function over a `Seq<char>` range and an
//! executable counterpart proved against it.

use vstd::prelude::*;

verus! {

/// The whitespace characters that trimming removes (the ASCII ones).
pub open spec fn is_space(c: char) -> bool {
    c == ' ' || c == '\t' || c == '\n' || c == '\r' || c == '\u{b}' || c == '\u{c}'
}

/// A decimal digit.
pub open spec fn is_digit(c: char) -> bool {
    48 <= c as u32 && c as u32 <= 57
}

/// An ASCII letter.
pub open spec fn is_alpha(c: char) -> bool {
    (65 <= c as u32 && c as u32 <= 90) || (97 <= c as u32 && c as u32 <= 122)
}

/// The numeric value of a decimal digit; other characters count as zero.
pub open spec fn digit_val(c: char) -> nat {
    if is_digit(c) {
        (c as u32 - 48) as nat
    } else {
        0
    }
}

/// The first index in `[from, to)` holding `c`, if any.
pub open spec fn spec_find_in(s: Seq<char>, c: char, from: int, to: int) -> Option<int>
    decreases to - from,
{
    if from < 0 || from >= to || to > s.len() {
        None
    } else if s[from] == c {
        Some(from)
    } else {
        spec_find_in(s, c, from + 1, to)
    }
}

/// The first index in `[from, to)` holding a non-space character, or
/// `to` if there is none: where a left trim of the range starts.
pub open spec fn spec_skip_space(s: Seq<char>, from: int, to: int) -> int
    decreases to - from,
{
    if from < 0 || from >= to || to > s.len() {
        to
    } else if is_space(s[from]) {
        spec_skip_space(s, from + 1, to)
    } else {
        from
    }
}

/// One past the last index in `[from, to)` holding a non-space
/// character, or `from` if there is none: where a right trim of the
/// range ends.
pub open spec fn spec_rskip_space(s: Seq<char>, from: int, to: int) -> int
    decreases to - from,
{
    if to <= from || from < 0 || to > s.len() {
        from
    } else if is_space(s[to - 1]) {
        spec_rskip_space(s, from, to - 1)
    } else {
        to
    }
}

/// The first index in `[from, to)` holding an ASCII letter, if any.
pub open spec fn spec_alpha_in(s: Seq<char>, from: int, to: int) -> Option<int>
    decreases to - from,
{
    if from < 0 || from >= to || to > s.len() {
        None
    } else if is_alpha(s[from]) {
        Some(from)
    } else {
        spec_alpha_in(s, from + 1, to)
    }
}

/// Whether `[from, to)` consists of decimal digits only.
pub open spec fn all_digits(s: Seq<char>, from: int, to: int) -> bool {
    forall|i: int| from <= i < to ==> is_digit(#[trigger] s[i])
}

/// The value of the decimal digits in `[from, to)`, read left to right.
pub open spec fn digits_val_in(s: Seq<char>, from: int, to: int) -> nat
    decreases to - from,
{
    if to <= from {
        0
    } else {
        digits_val_in(s, from, to - 1) * 10 + digit_val(s[to - 1])
    }
}

/// The number that `[from, to)` denotes: defined when the range is a
/// non-empty run of digits whose value fits in a `u32`, as for
/// `str::parse::<u32>` on the inputs this parser admits.
pub open spec fn spec_parse_u32(s: Seq<char>, from: int, to: int) -> Option<u32> {
    if from < to && all_digits(s, from, to) && digits_val_in(s, from, to) <= u32::MAX {
        Some(digits_val_in(s, from, to) as u32)
    } else {
        None
    }
}

/// A found index lies in the range and holds the sought character.
pub proof fn lemma_find_in_some(s: Seq<char>, c: char, from: int, to: int)
    requires
        spec_find_in(s, c, from, to) is Some,
    ensures
        ({
            let i = spec_find_in(s, c, from, to).unwrap();
            from <= i < to <= s.len() && s[i] == c
        }),
    decreases to - from,
{
    if !(from < 0 || from >= to || to > s.len()) && s[from] != c {
        lemma_find_in_some(s, c, from + 1, to);
    }
}

/// Reading more digits never makes the value smaller.
proof fn lemma_digits_val_grows(s: Seq<char>, from: int, mid: int, to: int)
    requires
        from <= mid <= to,
    ensures
        digits_val_in(s, from, mid) <= digits_val_in(s, from, to),
    decreases to - mid,
{
    if mid < to {
        lemma_digits_val_grows(s, from, mid, to - 1);
    }
}

/// Collects the characters of a string into a vector, so that the
/// parser can index them freely.
pub fn chars_vec(s: &str) -> (v: Vec<char>)
    ensures
        v@ == s@,
{
    let n = s.unicode_len();
    let mut v: Vec<char> = Vec::new();
    let mut i: usize = 0;
    while i < n
        invariant
            i <= n,
            n == s@.len(),
            v@ == s@.subrange(0, i as int),
        decreases n - i,
    {
        v.push(s.get_char(i));
        proof {
            assert(v@ =~= s@.subrange(0, i + 1 as int));
        }
        i += 1;
    }
    proof {
        assert(v@ =~= s@);
    }
    v
}

pub fn space(c: char) -> (r: bool)
    ensures
        r == is_space(c),
{
    c == ' ' || c == '\t' || c == '\n' || c == '\r' || c == '\u{b}' || c == '\u{c}'
}

pub fn digit_char(c: char) -> (r: bool)
    ensures
        r == is_digit(c),
{
    let u = c as u32;
    48 <= u && u <= 57
}

pub fn alpha_char(c: char) -> (r: bool)
    ensures
        r == is_alpha(c),
{
    let u = c as u32;
    (65 <= u && u <= 90) || (97 <= u && u <= 122)
}

/// Finds the first occurrence of `c` in `[from, to)`; see
/// [`spec_find_in`].
pub fn find_in(v: &Vec<char>, c: char, from: usize, to: usize) -> (r: Option<usize>)
    requires
        from <= to <= v@.len(),
    ensures
        match r {
            Some(i) => spec_find_in(v@, c, from as int, to as int) == Some(i as int) && from <= i
                < to,
            None => spec_find_in(v@, c, from as int, to as int) is None,
        },
{
    let mut i = from;
    while i < to
        invariant
            from <= i <= to <= v@.len(),
            spec_find_in(v@, c, from as int, to as int) == spec_find_in(v@, c, i as int, to as int),
        decreases to - i,
    {
        if v[i] == c {
            return Some(i);
        }
        i += 1;
    }
    None
}

/// Skips leading whitespace in `[from, to)`; see [`spec_skip_space`].
pub fn skip_space(v: &Vec<char>, from: usize, to: usize) -> (r: usize)
    requires
        from <= to <= v@.len(),
    ensures
        r == spec_skip_space(v@, from as int, to as int),
        from <= r <= to,
{
    let mut i = from;
    while i < to
        invariant
            from <= i <= to <= v@.len(),
            spec_skip_space(v@, from as int, to as int) == spec_skip_space(
                v@,
                i as int,
                to as int,
            ),
        decreases to - i,
    {
        if !space(v[i]) {
            return i;
        }
        i += 1;
    }
    to
}

/// Skips trailing whitespace in `[from, to)`; see [`spec_rskip_space`].
pub fn rskip_space(v: &Vec<char>, from: usize, to: usize) -> (r: usize)
    requires
        from <= to <= v@.len(),
    ensures
        r == spec_rskip_space(v@, from as int, to as int),
        from <= r <= to,
{
    let mut j = to;
    while j > from
        invariant
            from <= j <= to <= v@.len(),
            spec_rskip_space(v@, from as int, to as int) == spec_rskip_space(
                v@,
                from as int,
                j as int,
            ),
        decreases j,
    {
        if !space(v[j - 1]) {
            return j;
        }
        j -= 1;
    }
    from
}

/// Finds the first ASCII letter in `[from, to)`; see [`spec_alpha_in`].
pub fn alpha_in(v: &Vec<char>, from: usize, to: usize) -> (r: Option<usize>)
    requires
        from <= to <= v@.len(),
    ensures
        match r {
            Some(i) => spec_alpha_in(v@, from as int, to as int) == Some(i as int) && from <= i
                < to,
            None => spec_alpha_in(v@, from as int, to as int) is None,
        },
{
    let mut i = from;
    while i < to
        invariant
            from <= i <= to <= v@.len(),
            spec_alpha_in(v@, from as int, to as int) == spec_alpha_in(
                v@,
                i as int,
                to as int,
            ),
        decreases to - i,
    {
        if alpha_char(v[i]) {
            return Some(i);
        }
        i += 1;
    }
    None
}

/// Reads the decimal number in `[from, to)`; see [`spec_parse_u32`].
pub fn parse_u32_in(v: &Vec<char>, from: usize, to: usize) -> (r: Option<u32>)
    requires
        from <= to <= v@.len(),
    ensures
        r == spec_parse_u32(v@, from as int, to as int),
{
    if from == to {
        return None;
    }
    let mut acc: u64 = 0;
    let mut i = from;
    while i < to
        invariant
            from <= i <= to <= v@.len(),
            all_digits(v@, from as int, i as int),
            acc == digits_val_in(v@, from as int, i as int),
            acc <= u32::MAX,
        decreases to - i,
    {
        let c = v[i];
        if !digit_char(c) {
            return None;
        }
        acc = acc * 10 + ((c as u32 - 48) as u64);
        i += 1;
        if acc > u32::MAX as u64 {
            proof {
                lemma_digits_val_grows(v@, from as int, i as int, to as int);
            }
            return None;
        }
    }
    Some(acc as u32)
}

} // verus!
