//! Text helpers: decimal numerals, splitting and joining on a separator.

use vstd::prelude::*;
use vstd::string::*;
use vstd::utf8::is_ascii_chars;

verus! {

/// Whether `c` is one of the ten decimal digits.
pub open spec fn is_decimal_digit(c: char) -> bool {
    '0' <= c && c <= '9'
}

/// The number that the digit `c` stands for.
pub open spec fn digit_value(c: char) -> int {
    c as u32 as int - 48
}

/// Whether every character of `text` is a decimal digit.
pub open spec fn all_digits(text: Seq<char>) -> bool {
    forall|i: int| 0 <= i < text.len() ==> is_decimal_digit(#[trigger] text[i])
}

/// The number written by a run of digits, most significant digit first.
pub open spec fn digits_value(digits: Seq<char>) -> int
    decreases digits.len(),
{
    if digits.len() == 0 {
        0
    } else {
        10 * digits_value(digits.drop_last()) + digit_value(digits.last())
    }
}

/// Whether `text` opens with a minus sign that a signed numeral may carry.
pub open spec fn has_minus(text: Seq<char>, signed: bool) -> bool {
    signed && text.len() > 0 && text[0] == '-'
}

/// The digits of a numeral: `text` without its leading sign, if it has one.
pub open spec fn numeral_digits(text: Seq<char>, signed: bool) -> Seq<char> {
    if text.len() > 0 && (text[0] == '+' || has_minus(text, signed)) {
        text.skip(1)
    } else {
        text
    }
}

/// The integer that a decimal numeral denotes: an optional `+` (or, where
/// `signed`, `-`) followed by one or more digits and nothing else. Any other
/// text denotes nothing.
pub open spec fn decimal_value(text: Seq<char>, signed: bool) -> Option<int> {
    let digits = numeral_digits(text, signed);
    if digits.len() > 0 && all_digits(digits) {
        if has_minus(text, signed) {
            Some(-digits_value(digits))
        } else {
            Some(digits_value(digits))
        }
    } else {
        None
    }
}

/// `value` where it lies within `lo..=hi`, nothing otherwise.
pub open spec fn within(value: Option<int>, lo: int, hi: int) -> Option<int> {
    match value {
        Some(v) if lo <= v <= hi => Some(v),
        _ => None,
    }
}

/// A run of digits is worth at least as much as any of its prefixes.
proof fn lemma_digits_value_prefix(digits: Seq<char>, n: int)
    requires
        all_digits(digits),
        0 <= n <= digits.len(),
    ensures
        0 <= digits_value(digits.take(n)) <= digits_value(digits),
    decreases digits.len(),
{
    if digits.len() == 0 {
        assert(digits.take(n) =~= digits);
    } else if n == digits.len() {
        assert(digits.take(n) =~= digits);
        lemma_digits_value_prefix(digits.drop_last(), n - 1);
        assert(is_decimal_digit(digits.last()));
    } else {
        lemma_digits_value_prefix(digits.drop_last(), n);
        assert(digits.drop_last().take(n) =~= digits.take(n));
        assert(is_decimal_digit(digits.last()));
    }
}

/// Every character of a decimal numeral is an ASCII character.
proof fn lemma_numeral_is_ascii(text: Seq<char>, signed: bool)
    requires
        decimal_value(text, signed) is Some,
    ensures
        is_ascii_chars(text),
{
    let digits = numeral_digits(text, signed);
    assert forall|i: int| 0 <= i < text.len() implies '\0' <= #[trigger] text[i] <= '\u{7f}' by {
        if digits.len() == text.len() {
            assert(is_decimal_digit(digits[i]));
        } else if i > 0 {
            assert(digits[i - 1] == text[i]);
            assert(is_decimal_digit(digits[i - 1]));
        }
    }
}

/// Reads the magnitude of a decimal numeral, with whether it is negated.
/// `None` where `text` is no numeral or its magnitude exceeds `u64::MAX`.
fn parse_magnitude(text: &str, signed: bool) -> (r: Option<(bool, u64)>)
    ensures
        match r {
            Some((negative, magnitude)) => {
                &&& decimal_value(text@, signed) is Some
                &&& negative == has_minus(text@, signed)
                &&& magnitude == digits_value(numeral_digits(text@, signed))
            },
            None => decimal_value(text@, signed) matches Some(v) ==> v < -(u64::MAX as int) || v
                > u64::MAX as int,
        },
{
    if !text.is_ascii() {
        proof {
            if decimal_value(text@, signed) is Some {
                lemma_numeral_is_ascii(text@, signed);
            }
        }
        return None;
    }
    let len = text.unicode_len();
    if len == 0 {
        return None;
    }
    let first = text.get_ascii(0);
    let negative = signed && first == 45;
    let start: usize = if first == 43 || negative {
        1
    } else {
        0
    };
    if start == len {
        return None;
    }
    let ghost digits = numeral_digits(text@, signed);
    assert(digits =~= text@.skip(start as int));
    let mut magnitude: u64 = 0;
    let mut i: usize = start;
    while i < len
        invariant
            text.is_ascii(),
            len == text@.len(),
            start <= i <= len,
            start < len,
            digits == text@.skip(start as int),
            digits == numeral_digits(text@, signed),
            all_digits(digits.take(i - start)),
            magnitude == digits_value(digits.take(i - start)),
        decreases len - i,
    {
        let b = text.get_ascii(i);
        let ghost c = text@[i as int];
        assert(c == digits[i - start]);
        if b < 48 || b > 57 {
            assert(!is_decimal_digit(digits[i - start]));
            assert(!all_digits(digits));
            return None;
        }
        let ghost longer = digits.take(i - start + 1);
        assert(longer.drop_last() =~= digits.take(i - start));
        assert(longer.last() == c);
        assert(all_digits(longer));
        let d: u64 = (b - 48) as u64;
        assert(d == digit_value(c));
        let next = match magnitude.checked_mul(10) {
            Some(m) => m.checked_add(d),
            None => None,
        };
        match next {
            Some(m) => {
                magnitude = m;
            },
            None => {
                proof {
                    if all_digits(digits) {
                        lemma_digits_value_prefix(digits, i - start + 1);
                    }
                }
                return None;
            },
        }
        i = i + 1;
    }
    assert(digits.take(i - start) =~= digits);
    Some((negative, magnitude))
}

/// Reads a signed decimal numeral that fits `i64`: an optional sign, then
/// digits only.
pub fn parse_i64(text: &str) -> (r: Option<i64>)
    ensures
        match within(decimal_value(text@, true), i64::MIN as int, i64::MAX as int) {
            Some(v) => r == Some(v as i64),
            None => r is None,
        },
{
    match parse_magnitude(text, true) {
        Some((false, magnitude)) => {
            if magnitude <= 0x7fff_ffff_ffff_ffff {
                Some(magnitude as i64)
            } else {
                None
            }
        },
        Some((true, magnitude)) => {
            if magnitude <= 0x7fff_ffff_ffff_ffff {
                Some(-(magnitude as i64))
            } else if magnitude == 0x8000_0000_0000_0000 {
                Some(i64::MIN)
            } else {
                None
            }
        },
        None => None,
    }
}

/// Reads an unsigned decimal numeral that fits `u32`: an optional `+`,
/// then digits only.
pub fn parse_u32(text: &str) -> (r: Option<u32>)
    ensures
        match within(decimal_value(text@, false), 0, u32::MAX as int) {
            Some(v) => r == Some(v as u32),
            None => r is None,
        },
{
    match parse_magnitude(text, false) {
        Some((_, magnitude)) => {
            if magnitude <= 0xffff_ffff {
                Some(magnitude as u32)
            } else {
                None
            }
        },
        None => None,
    }
}

/// Reads an unsigned decimal numeral that fits `u16`: an optional `+`,
/// then digits only.
pub fn parse_u16(text: &str) -> (r: Option<u16>)
    ensures
        match within(decimal_value(text@, false), 0, u16::MAX as int) {
            Some(v) => r == Some(v as u16),
            None => r is None,
        },
{
    match parse_magnitude(text, false) {
        Some((_, magnitude)) => {
            if magnitude <= 0xffff {
                Some(magnitude as u16)
            } else {
                None
            }
        },
        None => None,
    }
}

/// The pieces that `separator` cuts `text` into, in order. A text with `n`
/// separators has `n + 1` pieces; a piece between two adjacent separators,
/// before a leading one or after a trailing one is empty.
pub open spec fn split_on(text: Seq<char>, separator: char) -> Seq<Seq<char>>
    decreases text.len(),
{
    if text.len() == 0 {
        seq![Seq::<char>::empty()]
    } else {
        let before = split_on(text.drop_last(), separator);
        if text.last() == separator {
            before.push(Seq::<char>::empty())
        } else {
            before.drop_last().push(before.last().push(text.last()))
        }
    }
}

/// `parts` written one after the other with `separator` between neighbours.
pub open spec fn join_with(parts: Seq<Seq<char>>, separator: Seq<char>) -> Seq<char>
    decreases parts.len(),
{
    if parts.len() == 0 {
        Seq::<char>::empty()
    } else if parts.len() == 1 {
        parts[0]
    } else {
        join_with(parts.drop_last(), separator) + separator + parts.last()
    }
}

/// Cuts `text` at every space.
pub fn split_on_space(text: &str) -> (pieces: Vec<String>)
    ensures
        pieces.deep_view() == split_on(text@, ' '),
{
    let len = text.unicode_len();
    let mut pieces: Vec<String> = Vec::new();
    let mut start: usize = 0;
    let mut i: usize = 0;
    assert(text@.take(0) =~= Seq::<char>::empty());
    assert(pieces.deep_view().push(text@.subrange(0, 0)) =~= seq![Seq::<char>::empty()]);
    while i < len
        invariant
            len == text@.len(),
            start <= i <= len,
            split_on(text@.take(i as int), ' ') == pieces.deep_view().push(
                text@.subrange(start as int, i as int),
            ),
        decreases len - i,
    {
        let c = text.get_char(i);
        let ghost before = split_on(text@.take(i as int), ' ');
        let ghost done = pieces.deep_view();
        assert(text@.take(i + 1).drop_last() =~= text@.take(i as int));
        assert(text@.take(i + 1).last() == c);
        if c == ' ' {
            pieces.push(String::from_str(text.substring_char(start, i)));
            assert(pieces.deep_view() =~= done.push(text@.subrange(start as int, i as int)));
            start = i + 1;
            assert(text@.subrange(start as int, i + 1) =~= Seq::<char>::empty());
        } else {
            assert(before.drop_last() =~= done);
            assert(before.last().push(c) =~= text@.subrange(start as int, i + 1));
        }
        i = i + 1;
    }
    assert(text@.take(len as int) =~= text@);
    let ghost done = pieces.deep_view();
    pieces.push(String::from_str(text.substring_char(start, len)));
    assert(pieces.deep_view() =~= done.push(text@.subrange(start as int, len as int)));
    pieces
}

/// Writes `parts` one after the other with `separator` between neighbours.
pub fn join(parts: &Vec<String>, separator: &str) -> (joined: String)
    ensures
        joined@ == join_with(parts.deep_view(), separator@),
{
    let mut joined = String::new();
    let mut i: usize = 0;
    assert(parts.deep_view().take(0) =~= Seq::<Seq<char>>::empty());
    while i < parts.len()
        invariant
            i <= parts.len(),
            joined@ == join_with(parts.deep_view().take(i as int), separator@),
        decreases parts.len() - i,
    {
        let ghost longer = parts.deep_view().take(i + 1);
        assert(longer.drop_last() =~= parts.deep_view().take(i as int));
        assert(longer.last() == parts[i as int]@);
        if i > 0 {
            joined.append(separator);
        } else {
            assert(longer[0] == parts[0]@);
            assert(joined@ + parts[0]@ =~= parts[0]@);
        }
        joined.append(parts[i].as_str());
        i = i + 1;
    }
    assert(parts.deep_view().take(parts.len() as int) =~= parts.deep_view());
    joined
}

/// Whether two texts are the same.
pub fn same_text(a: &str, b: &str) -> (same: bool)
    ensures
        same == (a@ == b@),
{
    a.to_owned() == b.to_owned()
}

/// A pair of owned texts.
pub fn text_pair(first: &str, second: &str) -> (pair: (String, String))
    ensures
        pair.0@ == first@,
        pair.1@ == second@,
        pair.deep_view() == (first@, second@),
{
    (first.to_owned(), second.to_owned())
}

} // verus!
