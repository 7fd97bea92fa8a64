//! Decoder for the line-oriented text protocol.
//!
//! A line is stripped of the whitespace around it and read as an unsigned
//! decimal number: an optional `+`, then one digit or more, with a value that
//! fits sixteen bits.

use vstd::prelude::*;
use crate::config::DistanceBounds;
use crate::reading::{check_range, classify_parsed, reading_of, DecodeOutcome};

verus! {

/// Whether `c` is one of the Unicode `White_Space` code points.
pub open spec fn is_whitespace(c: char) -> bool {
    let u = c as u32;
    ||| 0x09 <= u <= 0x0D
    ||| u == 0x20
    ||| u == 0x85
    ||| u == 0xA0
    ||| u == 0x1680
    ||| 0x2000 <= u <= 0x200A
    ||| u == 0x2028
    ||| u == 0x2029
    ||| u == 0x202F
    ||| u == 0x205F
    ||| u == 0x3000
}

/// Whether `c` is one of `0` to `9`.
pub open spec fn is_digit(c: char) -> bool {
    0x30 <= c as u32 <= 0x39
}

/// The number a decimal digit stands for.
pub open spec fn digit_value(c: char) -> nat
    recommends
        is_digit(c),
{
    (c as u32 - 0x30) as nat
}

/// `s` without the whitespace at its front.
pub open spec fn strip_leading(s: Seq<char>) -> Seq<char>
    decreases s.len(),
{
    if s.len() > 0 && is_whitespace(s.first()) {
        strip_leading(s.drop_first())
    } else {
        s
    }
}

/// `s` without the whitespace at its end.
pub open spec fn strip_trailing(s: Seq<char>) -> Seq<char>
    decreases s.len(),
{
    if s.len() > 0 && is_whitespace(s.last()) {
        strip_trailing(s.drop_last())
    } else {
        s
    }
}

/// `s` without the whitespace around it.
pub open spec fn trimmed(s: Seq<char>) -> Seq<char> {
    strip_trailing(strip_leading(s))
}

/// Whether every character of `s` is a decimal digit.
pub open spec fn all_digits(s: Seq<char>) -> bool {
    forall|i: int| 0 <= i < s.len() ==> is_digit(#[trigger] s[i])
}

/// The value of a run of decimal digits, the most significant first.
pub open spec fn digits_value(s: Seq<char>) -> nat
    decreases s.len(),
{
    if s.len() == 0 {
        0
    } else {
        digits_value(s.drop_last()) * 10 + digit_value(s.last())
    }
}

/// `s` without one leading plus sign, if it has one.
pub open spec fn unsigned_part(s: Seq<char>) -> Seq<char> {
    if s.len() > 0 && s.first() == '+' {
        s.drop_first()
    } else {
        s
    }
}

/// The number that `s` spells, if it spells one that fits sixteen bits.
pub open spec fn parse_decimal(s: Seq<char>) -> Option<u16> {
    let digits = unsigned_part(s);
    if digits.len() > 0 && all_digits(digits) && digits_value(digits) <= u16::MAX {
        Some(digits_value(digits) as u16)
    } else {
        None
    }
}

/// What a line decodes to under the given bounds.
pub open spec fn text_outcome(line: Seq<char>, bounds: DistanceBounds) -> DecodeOutcome {
    classify_parsed(parse_decimal(trimmed(line)), bounds)
}

/// Stripping from the front removes exactly the leading run of whitespace.
pub proof fn lemma_strip_leading(s: Seq<char>, count: int)
    requires
        0 <= count <= s.len(),
        forall|k: int| 0 <= k < count ==> is_whitespace(#[trigger] s[k]),
        count < s.len() ==> !is_whitespace(s[count]),
    ensures
        strip_leading(s) == s.skip(count),
    decreases count,
{
    if count == 0 {
        assert(s.skip(0) =~= s);
    } else {
        let rest = s.drop_first();
        assert forall|k: int| 0 <= k < count - 1 implies is_whitespace(#[trigger] rest[k]) by {
            assert(rest[k] == s[k + 1]);
        }
        lemma_strip_leading(rest, count - 1);
        assert(rest.skip(count - 1) =~= s.skip(count));
    }
}

/// Stripping from the end removes exactly the trailing run of whitespace.
pub proof fn lemma_strip_trailing(s: Seq<char>, kept: int)
    requires
        0 <= kept <= s.len(),
        forall|k: int| kept <= k < s.len() ==> is_whitespace(#[trigger] s[k]),
        kept > 0 ==> !is_whitespace(s[kept - 1]),
    ensures
        strip_trailing(s) == s.take(kept),
    decreases s.len() - kept,
{
    if kept == s.len() {
        assert(s.take(kept) =~= s);
    } else {
        let rest = s.drop_last();
        lemma_strip_trailing(rest, kept);
        assert(rest.take(kept) =~= s.take(kept));
    }
}

/// A longer run of digits has at least the value of each of its prefixes.
pub proof fn lemma_digits_value_grows(s: Seq<char>, len: int)
    requires
        0 <= len <= s.len(),
    ensures
        digits_value(s.take(len)) <= digits_value(s),
    decreases s.len() - len,
{
    if len == s.len() {
        assert(s.take(len) =~= s);
    } else {
        lemma_digits_value_grows(s.drop_last(), len);
        assert(s.drop_last().take(len) =~= s.take(len));
    }
}

/// Tests a character against the Unicode `White_Space` code points.
pub fn char_is_whitespace(c: char) -> (blank: bool)
    ensures
        blank == is_whitespace(c),
{
    let u: u32 = c as u32;
    (0x09 <= u && u <= 0x0D) || u == 0x20 || u == 0x85 || u == 0xA0 || u == 0x1680 || (0x2000
        <= u && u <= 0x200A) || u == 0x2028 || u == 0x2029 || u == 0x202F || u == 0x205F || u
        == 0x3000
}

/// Copies the characters of a string slice into a vector.
pub fn chars_of(text: &str) -> (chars: Vec<char>)
    ensures
        chars@ == text@,
{
    let mut chars: Vec<char> = Vec::new();
    for c in iter: text.chars()
        invariant
            chars@ == iter.seq().take(iter.index() as int),
            iter.seq() == text@,
    {
        chars.push(c);
    }
    chars
}

/// Reads the characters `chars[from..to]` as an unsigned decimal number.
pub fn parse_decimal_range(chars: &Vec<char>, from: usize, to: usize) -> (parsed: Option<u16>)
    requires
        from <= to <= chars.len(),
    ensures
        parsed == parse_decimal(chars@.subrange(from as int, to as int)),
{
    let ghost whole = chars@.subrange(from as int, to as int);
    let mut start: usize = from;
    if start < to && chars[start] == '+' {
        start = start + 1;
    }
    let ghost digits = chars@.subrange(start as int, to as int);
    assert(digits =~= unsigned_part(whole));
    if start == to {
        return None;
    }
    let mut value: u32 = 0;
    let mut at: usize = start;
    while at < to
        invariant
            from <= start <= at <= to <= chars.len(),
            digits == chars@.subrange(start as int, to as int),
            digits == unsigned_part(chars@.subrange(from as int, to as int)),
            all_digits(digits.take(at - start)),
            value == digits_value(digits.take(at - start)),
            value <= u16::MAX,
        decreases to - at,
    {
        let c: char = chars[at];
        let u: u32 = c as u32;
        let ghost seen = digits.take(at - start + 1);
        assert(seen.drop_last() =~= digits.take(at - start));
        assert(seen.last() == c);
        if u < 0x30 || u > 0x39 {
            assert(!is_digit(digits[at - start]));
            return None;
        }
        let next: u32 = value * 10 + (u - 0x30);
        assert(next == digits_value(seen));
        if next > 0xFFFF {
            proof {
                lemma_digits_value_grows(digits, at - start + 1);
            }
            return None;
        }
        assert forall|i: int| 0 <= i < seen.len() implies is_digit(#[trigger] seen[i]) by {
            if i < at - start {
                assert(seen[i] == digits.take(at - start)[i]);
            }
        }
        value = next;
        at = at + 1;
    }
    assert(digits.take(to - start) =~= digits);
    Some(value as u16)
}

/// Decodes one line of text.
///
/// The line is stripped of surrounding whitespace and read as an unsigned
/// decimal number. A line that is no such number is malformed; a number is
/// accepted if and only if it lies within the bounds.
pub fn decode_text_line(line: &str, bounds: &DistanceBounds) -> (outcome: DecodeOutcome)
    ensures
        outcome == text_outcome(line@, *bounds),
{
    let chars = chars_of(line);
    let len: usize = chars.len();
    let mut from: usize = 0;
    while from < len && char_is_whitespace(chars[from])
        invariant
            from <= len == chars.len(),
            forall|k: int| 0 <= k < from ==> is_whitespace(#[trigger] chars@[k]),
        decreases len - from,
    {
        from = from + 1;
    }
    let mut to: usize = len;
    while to > from && char_is_whitespace(chars[to - 1])
        invariant
            from <= to <= len == chars.len(),
            forall|k: int| to <= k < len ==> is_whitespace(#[trigger] chars@[k]),
        decreases to - from,
    {
        to = to - 1;
    }
    proof {
        let front = chars@.skip(from as int);
        lemma_strip_leading(chars@, from as int);
        assert forall|k: int| to - from <= k < front.len() implies is_whitespace(
            #[trigger] front[k],
        ) by {
            assert(front[k] == chars@[k + from]);
        }
        lemma_strip_trailing(front, to - from);
        assert(front.take(to - from) =~= chars@.subrange(from as int, to as int));
    }
    match parse_decimal_range(&chars, from, to) {
        Some(measured_mm) => check_range(measured_mm, bounds),
        None => DecodeOutcome::Malformed,
    }
}

/// A line that spells an in-range number decodes to that number; one that
/// spells a number outside the bounds, or no number, decodes to the zero
/// reading.
pub proof fn law_text_reading(line: Seq<char>, bounds: DistanceBounds)
    ensures
        match parse_decimal(trimmed(line)) {
            Some(n) if bounds.admits(n as int) => reading_of(text_outcome(line, bounds)).valid
                && reading_of(text_outcome(line, bounds)).distance_mm == n,
            _ => !reading_of(text_outcome(line, bounds)).valid && reading_of(
                text_outcome(line, bounds),
            ).distance_mm == 0,
        },
{
}

} // verus!
