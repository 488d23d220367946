//! Character classes and index-based scanning over sequences of `char`.
//!
//! Every grammar in this crate is stated over `Seq<char>` and positions in
//! it; the executable scanners walk a `Vec<char>` with the same positions.

use vstd::prelude::*;

verus! {

/// The code points with the Unicode `White_Space` property.
pub open spec fn is_whitespace(c: char) -> bool {
    let n = c as u32;
    ||| 0x09 <= n <= 0x0D
    ||| n == 0x20
    ||| n == 0x85
    ||| n == 0xA0
    ||| n == 0x1680
    ||| 0x2000 <= n <= 0x200A
    ||| n == 0x2028
    ||| n == 0x2029
    ||| n == 0x202F
    ||| n == 0x205F
    ||| n == 0x3000
}

/// An ASCII decimal digit.
pub open spec fn is_digit(c: char) -> bool {
    '0' <= c && c <= '9'
}

/// A letter of the Latin alphabet without marks, small or capital.
pub open spec fn is_letter(c: char) -> bool {
    ('a' <= c && c <= 'z') || ('A' <= c && c <= 'Z')
}

/// A digit of any script: the code points of the Unicode general category
/// `Decimal_Number`, as of Unicode 16.
pub open spec fn is_decimal_number(c: char) -> bool {
    let n = c as u32;
    ||| 0x30 <= n <= 0x39
    ||| 0x660 <= n <= 0x669
    ||| 0x6F0 <= n <= 0x6F9
    ||| 0x7C0 <= n <= 0x7C9
    ||| 0x966 <= n <= 0x96F
    ||| 0x9E6 <= n <= 0x9EF
    ||| 0xA66 <= n <= 0xA6F
    ||| 0xAE6 <= n <= 0xAEF
    ||| 0xB66 <= n <= 0xB6F
    ||| 0xBE6 <= n <= 0xBEF
    ||| 0xC66 <= n <= 0xC6F
    ||| 0xCE6 <= n <= 0xCEF
    ||| 0xD66 <= n <= 0xD6F
    ||| 0xDE6 <= n <= 0xDEF
    ||| 0xE50 <= n <= 0xE59
    ||| 0xED0 <= n <= 0xED9
    ||| 0xF20 <= n <= 0xF29
    ||| 0x1040 <= n <= 0x1049
    ||| 0x1090 <= n <= 0x1099
    ||| 0x17E0 <= n <= 0x17E9
    ||| 0x1810 <= n <= 0x1819
    ||| 0x1946 <= n <= 0x194F
    ||| 0x19D0 <= n <= 0x19D9
    ||| 0x1A80 <= n <= 0x1A89
    ||| 0x1A90 <= n <= 0x1A99
    ||| 0x1B50 <= n <= 0x1B59
    ||| 0x1BB0 <= n <= 0x1BB9
    ||| 0x1C40 <= n <= 0x1C49
    ||| 0x1C50 <= n <= 0x1C59
    ||| 0xA620 <= n <= 0xA629
    ||| 0xA8D0 <= n <= 0xA8D9
    ||| 0xA900 <= n <= 0xA909
    ||| 0xA9D0 <= n <= 0xA9D9
    ||| 0xA9F0 <= n <= 0xA9F9
    ||| 0xAA50 <= n <= 0xAA59
    ||| 0xABF0 <= n <= 0xABF9
    ||| 0xFF10 <= n <= 0xFF19
    ||| 0x104A0 <= n <= 0x104A9
    ||| 0x10D30 <= n <= 0x10D39
    ||| 0x10D40 <= n <= 0x10D49
    ||| 0x11066 <= n <= 0x1106F
    ||| 0x110F0 <= n <= 0x110F9
    ||| 0x11136 <= n <= 0x1113F
    ||| 0x111D0 <= n <= 0x111D9
    ||| 0x112F0 <= n <= 0x112F9
    ||| 0x11450 <= n <= 0x11459
    ||| 0x114D0 <= n <= 0x114D9
    ||| 0x11650 <= n <= 0x11659
    ||| 0x116C0 <= n <= 0x116C9
    ||| 0x116D0 <= n <= 0x116E3
    ||| 0x11730 <= n <= 0x11739
    ||| 0x118E0 <= n <= 0x118E9
    ||| 0x11950 <= n <= 0x11959
    ||| 0x11BF0 <= n <= 0x11BF9
    ||| 0x11C50 <= n <= 0x11C59
    ||| 0x11D50 <= n <= 0x11D59
    ||| 0x11DA0 <= n <= 0x11DA9
    ||| 0x11F50 <= n <= 0x11F59
    ||| 0x16130 <= n <= 0x16139
    ||| 0x16A60 <= n <= 0x16A69
    ||| 0x16AC0 <= n <= 0x16AC9
    ||| 0x16B50 <= n <= 0x16B59
    ||| 0x16D70 <= n <= 0x16D79
    ||| 0x1CCF0 <= n <= 0x1CCF9
    ||| 0x1D7CE <= n <= 0x1D7FF
    ||| 0x1E140 <= n <= 0x1E149
    ||| 0x1E2F0 <= n <= 0x1E2F9
    ||| 0x1E4F0 <= n <= 0x1E4F9
    ||| 0x1E5F1 <= n <= 0x1E5FA
    ||| 0x1E950 <= n <= 0x1E959
    ||| 0x1FBF0 <= n <= 0x1FBF9
}

/// The first position at or after `from` that holds a digit of any script
/// no more (the length of `s` if the digits run to the end).
pub open spec fn skip_decimal_numbers(s: Seq<char>, from: int) -> int
    decreases s.len() - from,
{
    if 0 <= from < s.len() && is_decimal_number(s[from]) {
        skip_decimal_numbers(s, from + 1)
    } else {
        from
    }
}

/// The number a decimal digit stands for.
pub open spec fn digit_of(c: char) -> nat
    recommends
        is_digit(c),
{
    (c as int - '0' as int) as nat
}

/// Every element of `s` is a decimal digit.
pub open spec fn all_digits(s: Seq<char>) -> bool {
    forall|i: int| 0 <= i < s.len() ==> is_digit(#[trigger] s[i])
}

/// The number that a string of decimal digits denotes; 0 for the empty string.
pub open spec fn digits_value(s: Seq<char>) -> nat
    decreases s.len(),
{
    if s.len() == 0 {
        0
    } else {
        digits_value(s.drop_last()) * 10 + digit_of(s.last())
    }
}

/// The first position at or after `from` that holds no whitespace
/// (the length of `s` if there is none).
pub open spec fn skip_whitespace(s: Seq<char>, from: int) -> int
    decreases s.len() - from,
{
    if 0 <= from < s.len() && is_whitespace(s[from]) {
        skip_whitespace(s, from + 1)
    } else {
        from
    }
}

/// The end of `s[from..to]` once its trailing whitespace is cut off.
pub open spec fn skip_whitespace_back(s: Seq<char>, from: int, to: int) -> int
    decreases to - from,
{
    if from < to <= s.len() && is_whitespace(s[to - 1]) {
        skip_whitespace_back(s, from, to - 1)
    } else {
        to
    }
}

/// The first position at or after `from` that holds a decimal digit no more
/// (the length of `s` if the digits run to the end).
pub open spec fn skip_digits(s: Seq<char>, from: int) -> int
    decreases s.len() - from,
{
    if 0 <= from < s.len() && is_digit(s[from]) {
        skip_digits(s, from + 1)
    } else {
        from
    }
}

/// `s` without its leading and trailing whitespace.
pub open spec fn trim(s: Seq<char>) -> Seq<char> {
    let start = skip_whitespace(s, 0);
    let end = skip_whitespace_back(s, start, s.len() as int);
    s.subrange(start, end)
}

/// `word` stands in `s` at position `at`.
pub open spec fn has_at(s: Seq<char>, at: int, word: Seq<char>) -> bool {
    &&& 0 <= at
    &&& at + word.len() <= s.len()
    &&& s.subrange(at, at + word.len()) == word
}

/// The position of the first `c` in `s` at or after `from`
/// (the length of `s` if there is none).
pub open spec fn find_char(s: Seq<char>, c: char, from: int) -> int
    decreases s.len() - from,
{
    if 0 <= from < s.len() && s[from] != c {
        find_char(s, c, from + 1)
    } else {
        from
    }
}

pub proof fn lemma_skip_whitespace_bounds(s: Seq<char>, from: int)
    requires
        0 <= from <= s.len(),
    ensures
        from <= skip_whitespace(s, from) <= s.len(),
        skip_whitespace(s, from) < s.len() ==> !is_whitespace(s[skip_whitespace(s, from)]),
        forall|i: int| from <= i < skip_whitespace(s, from) ==> is_whitespace(#[trigger] s[i]),
    decreases s.len() - from,
{
    if from < s.len() && is_whitespace(s[from]) {
        lemma_skip_whitespace_bounds(s, from + 1);
    }
}

pub proof fn lemma_skip_whitespace_back_bounds(s: Seq<char>, from: int, to: int)
    requires
        0 <= from <= to <= s.len(),
    ensures
        from <= skip_whitespace_back(s, from, to) <= to,
        from < skip_whitespace_back(s, from, to) ==> !is_whitespace(
            s[skip_whitespace_back(s, from, to) - 1],
        ),
        forall|i: int|
            skip_whitespace_back(s, from, to) <= i < to ==> is_whitespace(#[trigger] s[i]),
    decreases to - from,
{
    if from < to && is_whitespace(s[to - 1]) {
        lemma_skip_whitespace_back_bounds(s, from, to - 1);
    }
}

/// Whitespace from `from` up to a position `to` that holds none is skipped
/// up to `to`.
pub proof fn lemma_skip_whitespace_to(s: Seq<char>, from: int, to: int)
    requires
        0 <= from <= to <= s.len(),
        forall|i: int| from <= i < to ==> is_whitespace(#[trigger] s[i]),
        to < s.len() ==> !is_whitespace(s[to]),
    ensures
        skip_whitespace(s, from) == to,
    decreases to - from,
{
    if from < to {
        lemma_skip_whitespace_to(s, from + 1, to);
    }
}

/// Whitespace from `to` back to a position `end` before which none stands
/// is cut off back to `end`.
pub proof fn lemma_skip_whitespace_back_to(s: Seq<char>, from: int, end: int, to: int)
    requires
        0 <= from <= end <= to <= s.len(),
        forall|i: int| end <= i < to ==> is_whitespace(#[trigger] s[i]),
        from < end ==> !is_whitespace(s[end - 1]),
    ensures
        skip_whitespace_back(s, from, to) == end,
    decreases to - end,
{
    if end < to {
        lemma_skip_whitespace_back_to(s, from, end, to - 1);
    }
}

/// The first `c` is at `to` if none stands before it, and `c` or the end
/// of `s` stands there.
pub proof fn lemma_find_char_to(s: Seq<char>, c: char, from: int, to: int)
    requires
        0 <= from <= to <= s.len(),
        forall|i: int| from <= i < to ==> #[trigger] s[i] != c,
        to < s.len() ==> s[to] == c,
    ensures
        find_char(s, c, from) == to,
    decreases to - from,
{
    if from < to {
        lemma_find_char_to(s, c, from + 1, to);
    }
}

pub proof fn lemma_skip_digits_bounds(s: Seq<char>, from: int)
    requires
        0 <= from <= s.len(),
    ensures
        from <= skip_digits(s, from) <= s.len(),
        skip_digits(s, from) < s.len() ==> !is_digit(s[skip_digits(s, from)]),
        forall|i: int| from <= i < skip_digits(s, from) ==> is_digit(#[trigger] s[i]),
    decreases s.len() - from,
{
    if from < s.len() && is_digit(s[from]) {
        lemma_skip_digits_bounds(s, from + 1);
    }
}

pub proof fn lemma_find_char_bounds(s: Seq<char>, c: char, from: int)
    requires
        0 <= from <= s.len(),
    ensures
        from <= find_char(s, c, from) <= s.len(),
        find_char(s, c, from) < s.len() ==> s[find_char(s, c, from)] == c,
        forall|i: int| from <= i < find_char(s, c, from) ==> #[trigger] s[i] != c,
    decreases s.len() - from,
{
    if from < s.len() && s[from] != c {
        lemma_find_char_bounds(s, c, from + 1);
    }
}

/// Whether `c` is whitespace.
pub fn is_space(c: char) -> (r: bool)
    ensures
        r == is_whitespace(c),
{
    let n: u32 = c as u32;
    (0x09 <= n && n <= 0x0D) || n == 0x20 || n == 0x85 || n == 0xA0 || n == 0x1680 || (0x2000 <= n
        && n <= 0x200A) || n == 0x2028 || n == 0x2029 || n == 0x202F || n == 0x205F || n
        == 0x3000
}

/// Whether `c` is a letter.
pub fn is_latin_letter(c: char) -> (r: bool)
    ensures
        r == is_letter(c),
{
    (c >= 'a' && c <= 'z') || (c >= 'A' && c <= 'Z')
}

/// Whether `c` is a digit of any script.
pub fn is_digit_of_any_script(c: char) -> (r: bool)
    ensures
        r == is_decimal_number(c),
{
    let n: u32 = c as u32;
    (0x30 <= n && n <= 0x39) || (0x660 <= n && n <= 0x669) || (0x6F0 <= n && n <= 0x6F9)
        || (0x7C0 <= n && n <= 0x7C9) || (0x966 <= n && n <= 0x96F)
        || (0x9E6 <= n && n <= 0x9EF) || (0xA66 <= n && n <= 0xA6F)
        || (0xAE6 <= n && n <= 0xAEF) || (0xB66 <= n && n <= 0xB6F)
        || (0xBE6 <= n && n <= 0xBEF) || (0xC66 <= n && n <= 0xC6F)
        || (0xCE6 <= n && n <= 0xCEF) || (0xD66 <= n && n <= 0xD6F)
        || (0xDE6 <= n && n <= 0xDEF) || (0xE50 <= n && n <= 0xE59)
        || (0xED0 <= n && n <= 0xED9) || (0xF20 <= n && n <= 0xF29)
        || (0x1040 <= n && n <= 0x1049) || (0x1090 <= n && n <= 0x1099)
        || (0x17E0 <= n && n <= 0x17E9) || (0x1810 <= n && n <= 0x1819)
        || (0x1946 <= n && n <= 0x194F) || (0x19D0 <= n && n <= 0x19D9)
        || (0x1A80 <= n && n <= 0x1A89) || (0x1A90 <= n && n <= 0x1A99)
        || (0x1B50 <= n && n <= 0x1B59) || (0x1BB0 <= n && n <= 0x1BB9)
        || (0x1C40 <= n && n <= 0x1C49) || (0x1C50 <= n && n <= 0x1C59)
        || (0xA620 <= n && n <= 0xA629) || (0xA8D0 <= n && n <= 0xA8D9)
        || (0xA900 <= n && n <= 0xA909) || (0xA9D0 <= n && n <= 0xA9D9)
        || (0xA9F0 <= n && n <= 0xA9F9) || (0xAA50 <= n && n <= 0xAA59)
        || (0xABF0 <= n && n <= 0xABF9) || (0xFF10 <= n && n <= 0xFF19)
        || (0x104A0 <= n && n <= 0x104A9) || (0x10D30 <= n && n <= 0x10D39)
        || (0x10D40 <= n && n <= 0x10D49) || (0x11066 <= n && n <= 0x1106F)
        || (0x110F0 <= n && n <= 0x110F9) || (0x11136 <= n && n <= 0x1113F)
        || (0x111D0 <= n && n <= 0x111D9) || (0x112F0 <= n && n <= 0x112F9)
        || (0x11450 <= n && n <= 0x11459) || (0x114D0 <= n && n <= 0x114D9)
        || (0x11650 <= n && n <= 0x11659) || (0x116C0 <= n && n <= 0x116C9)
        || (0x116D0 <= n && n <= 0x116E3) || (0x11730 <= n && n <= 0x11739)
        || (0x118E0 <= n && n <= 0x118E9) || (0x11950 <= n && n <= 0x11959)
        || (0x11BF0 <= n && n <= 0x11BF9) || (0x11C50 <= n && n <= 0x11C59)
        || (0x11D50 <= n && n <= 0x11D59) || (0x11DA0 <= n && n <= 0x11DA9)
        || (0x11F50 <= n && n <= 0x11F59) || (0x16130 <= n && n <= 0x16139)
        || (0x16A60 <= n && n <= 0x16A69) || (0x16AC0 <= n && n <= 0x16AC9)
        || (0x16B50 <= n && n <= 0x16B59) || (0x16D70 <= n && n <= 0x16D79)
        || (0x1CCF0 <= n && n <= 0x1CCF9) || (0x1D7CE <= n && n <= 0x1D7FF)
        || (0x1E140 <= n && n <= 0x1E149) || (0x1E2F0 <= n && n <= 0x1E2F9)
        || (0x1E4F0 <= n && n <= 0x1E4F9) || (0x1E5F1 <= n && n <= 0x1E5FA)
        || (0x1E950 <= n && n <= 0x1E959) || (0x1FBF0 <= n && n <= 0x1FBF9)
}

/// The position after the digits of any script that start at `from`.
pub fn skip_digits_of_any_script(chars: &Vec<char>, from: usize) -> (r: usize)
    requires
        from <= chars.len(),
    ensures
        r as int == skip_decimal_numbers(chars@, from as int),
        from <= r <= chars.len(),
{
    let mut i: usize = from;
    while i < chars.len() && is_digit_of_any_script(chars[i])
        invariant
            from <= i <= chars.len(),
            skip_decimal_numbers(chars@, from as int) == skip_decimal_numbers(chars@, i as int),
        decreases chars.len() - i,
    {
        i += 1;
    }
    i
}

/// Whether `c` is a decimal digit.
pub fn is_decimal_digit(c: char) -> (r: bool)
    ensures
        r == is_digit(c),
{
    c >= '0' && c <= '9'
}

/// The characters of `s`, in order.
pub fn chars_of(s: &str) -> (r: Vec<char>)
    ensures
        r@ == s@,
{
    let mut out: Vec<char> = Vec::new();
    for c in it: s.chars()
        invariant
            out@ == it.seq().take(it.index() as int),
            it.seq() == s@,
    {
        out.push(c);
    }
    out
}

/// Whether the characters of `word` stand in `chars` at position `at`.
pub fn word_at(chars: &Vec<char>, at: usize, word: &str) -> (r: bool)
    ensures
        r == has_at(chars@, at as int, word@),
{
    let w = chars_of(word);
    if at > chars.len() || w.len() > chars.len() - at {
        return false;
    }
    let mut i: usize = 0;
    while i < w.len()
        invariant
            at + w.len() <= chars.len(),
            i <= w.len(),
            w@ == word@,
            forall|j: int| 0 <= j < i ==> chars@[at + j] == w@[j],
        decreases w.len() - i,
    {
        if chars[at + i] != w[i] {
            return false;
        }
        i += 1;
    }
    assert(chars@.subrange(at as int, at + w.len()) =~= w@);
    true
}

/// Whether `chars` spells exactly `word`.
pub fn spells(chars: &Vec<char>, word: &str) -> (r: bool)
    ensures
        r == (chars@ == word@),
{
    let w = chars_of(word);
    if w.len() != chars.len() {
        return false;
    }
    let r = word_at(chars, 0, word);
    proof {
        assert(chars@.subrange(0, chars@.len() as int) =~= chars@);
    }
    r
}

/// The position after the whitespace that starts at `from`.
pub fn skip_spaces(chars: &Vec<char>, from: usize) -> (r: usize)
    requires
        from <= chars.len(),
    ensures
        r as int == skip_whitespace(chars@, from as int),
        from <= r <= chars.len(),
{
    let mut i: usize = from;
    while i < chars.len() && is_space(chars[i])
        invariant
            from <= i <= chars.len(),
            skip_whitespace(chars@, from as int) == skip_whitespace(chars@, i as int),
        decreases chars.len() - i,
    {
        i += 1;
    }
    i
}

/// The end of `chars[from..to]` without its trailing whitespace.
pub fn skip_spaces_back(chars: &Vec<char>, from: usize, to: usize) -> (r: usize)
    requires
        from <= to <= chars.len(),
    ensures
        r as int == skip_whitespace_back(chars@, from as int, to as int),
        from <= r <= to,
{
    let mut i: usize = to;
    while from < i && is_space(chars[i - 1])
        invariant
            from <= i <= to,
            to <= chars.len(),
            skip_whitespace_back(chars@, from as int, to as int) == skip_whitespace_back(
                chars@,
                from as int,
                i as int,
            ),
        decreases i - from,
    {
        i -= 1;
    }
    i
}

/// The position of the first `c` at or after `from`.
pub fn position_of(chars: &Vec<char>, c: char, from: usize) -> (r: usize)
    requires
        from <= chars.len(),
    ensures
        r as int == find_char(chars@, c, from as int),
        from <= r <= chars.len(),
{
    let mut i: usize = from;
    while i < chars.len() && chars[i] != c
        invariant
            from <= i <= chars.len(),
            find_char(chars@, c, from as int) == find_char(chars@, c, i as int),
        decreases chars.len() - i,
    {
        i += 1;
    }
    i
}

/// A copy of `chars[from..to]`.
pub fn slice_of(chars: &Vec<char>, from: usize, to: usize) -> (r: Vec<char>)
    requires
        from <= to <= chars.len(),
    ensures
        r@ == chars@.subrange(from as int, to as int),
{
    let mut out: Vec<char> = Vec::new();
    let mut i: usize = from;
    while i < to
        invariant
            from <= i <= to <= chars.len(),
            out@ == chars@.subrange(from as int, i as int),
        decreases to - i,
    {
        out.push(chars[i]);
        i += 1;
    }
    out
}

/// `chars` without its leading and trailing whitespace.
pub fn trimmed(chars: &Vec<char>) -> (r: Vec<char>)
    ensures
        r@ == trim(chars@),
{
    let start = skip_spaces(chars, 0);
    let end = skip_spaces_back(chars, start, chars.len());
    slice_of(chars, start, end)
}

/// Where `chars` begins and ends once its leading and trailing whitespace
/// is cut off.
pub fn trim_bounds(chars: &Vec<char>) -> (r: (usize, usize))
    ensures
        r.0 <= r.1 <= chars.len(),
        trim(chars@) == chars@.subrange(r.0 as int, r.1 as int),
{
    let start = skip_spaces(chars, 0);
    let end = skip_spaces_back(chars, start, chars.len());
    (start, end)
}

/// The largest number that [`read_digits`] tells from larger ones.
pub const DIGITS_CAP: u64 = 100_000_000_000;

/// Whether `d` holds digits only, and their value, held at [`DIGITS_CAP`].
pub fn read_digits(d: &Vec<char>) -> (r: (bool, u64))
    ensures
        r.0 == all_digits(d@),
        r.0 ==> r.1 as nat == if digits_value(d@) > DIGITS_CAP {
            DIGITS_CAP as nat
        } else {
            digits_value(d@)
        },
{
    let mut acc: u64 = 0;
    let mut i: usize = 0;
    while i < d.len()
        invariant
            i <= d.len(),
            acc <= DIGITS_CAP,
            all_digits(d@.subrange(0, i as int)),
            acc as nat == if digits_value(d@.subrange(0, i as int)) > DIGITS_CAP {
                DIGITS_CAP as nat
            } else {
                digits_value(d@.subrange(0, i as int))
            },
        decreases d.len() - i,
    {
        let c = d[i];
        if !is_decimal_digit(c) {
            return (false, 0);
        }
        proof {
            let next = d@.subrange(0, i + 1);
            assert(next.drop_last() =~= d@.subrange(0, i as int));
            assert forall|j: int| 0 <= j < next.len() implies is_digit(#[trigger] next[j]) by {}
        }
        let digit: u64 = (c as u32 - '0' as u32) as u64;
        let widened: u64 = acc * 10 + digit;
        acc = if widened > DIGITS_CAP {
            DIGITS_CAP
        } else {
            widened
        };
        i += 1;
    }
    proof {
        assert(d@.subrange(0, d@.len() as int) =~= d@);
    }
    (true, acc)
}

} // verus!
