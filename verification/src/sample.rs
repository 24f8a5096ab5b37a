//! Reading an activity sample: the output of the sampling command is a
//! decimal number with white space around it.

use vstd::prelude::*;

verus! {

/// The output of the sampling command is not a number that fits: the
/// activity is unknown.
#[derive(Debug, Clone, Copy, PartialEq, Eq, Structural)]
pub struct SampleParseFailure;

/// The number of bytes of the white-space character that is encoded in
/// UTF-8 at position `i` of `bytes`, or 0 where none is. White space is
/// U+0009 to U+000D, U+0020, U+0085, U+00A0, U+1680, U+2000 to U+200A,
/// U+2028, U+2029, U+202F, U+205F and U+3000.
pub open spec fn space_width(bytes: Seq<u8>, i: int) -> int {
    if i < 0 || i >= bytes.len() {
        0
    } else if 0x09 <= bytes[i] <= 0x0D || bytes[i] == 0x20 {
        1
    } else if i + 1 < bytes.len() && bytes[i] == 0xC2 && (bytes[i + 1] == 0x85 || bytes[i + 1]
        == 0xA0) {
        2
    } else if i + 2 < bytes.len() && bytes[i] == 0xE1 && bytes[i + 1] == 0x9A && bytes[i + 2]
        == 0x80 {
        3
    } else if i + 2 < bytes.len() && bytes[i] == 0xE2 && bytes[i + 1] == 0x80 && (0x80 <= bytes[i
        + 2] <= 0x8A || bytes[i + 2] == 0xA8 || bytes[i + 2] == 0xA9 || bytes[i + 2] == 0xAF) {
        3
    } else if i + 2 < bytes.len() && bytes[i] == 0xE2 && bytes[i + 1] == 0x81 && bytes[i + 2]
        == 0x9F {
        3
    } else if i + 2 < bytes.len() && bytes[i] == 0xE3 && bytes[i + 1] == 0x80 && bytes[i + 2]
        == 0x80 {
        3
    } else {
        0
    }
}

/// The position at which the run of white space that starts at `i` ends.
pub open spec fn space_end(bytes: Seq<u8>, i: int) -> int
    decreases bytes.len() - i,
{
    if space_width(bytes, i) > 0 {
        space_end(bytes, i + space_width(bytes, i))
    } else {
        i
    }
}

/// Whether `byte` is a decimal digit.
pub open spec fn is_digit(byte: u8) -> bool {
    0x30 <= byte <= 0x39
}

/// The position at which the run of digits that starts at `i` ends.
pub open spec fn digits_end(bytes: Seq<u8>, i: int) -> int
    decreases bytes.len() - i,
{
    if 0 <= i < bytes.len() && is_digit(bytes[i]) {
        digits_end(bytes, i + 1)
    } else {
        i
    }
}

/// The number that the digits from `from` up to `to` spell.
pub open spec fn decimal_value(bytes: Seq<u8>, from: int, to: int) -> int
    decreases to - from,
{
    if to <= from {
        0
    } else {
        decimal_value(bytes, from, to - 1) * 10 + (bytes[to - 1] - 0x30)
    }
}

/// Where the digits of the number start: after the leading white space and
/// a plus sign, if there is one.
pub open spec fn digits_start(bytes: Seq<u8>) -> int {
    let after_space = space_end(bytes, 0);
    if 0 <= after_space < bytes.len() && bytes[after_space] == 0x2B {
        after_space + 1
    } else {
        after_space
    }
}

/// The sample that `bytes` spells: white space, an optional plus sign, at
/// least one digit, white space and nothing else, with a value that a `u64`
/// holds. Anything else spells none.
pub open spec fn sample_reading(bytes: Seq<u8>) -> Option<u64> {
    let start = digits_start(bytes);
    let end = digits_end(bytes, start);
    if start < end && space_end(bytes, end) == bytes.len() && decimal_value(bytes, start, end)
        <= u64::MAX {
        Some(decimal_value(bytes, start, end) as u64)
    } else {
        None
    }
}

/// A run of white space ends within the bytes, at or after its start.
pub proof fn lemma_space_end_bounds(bytes: Seq<u8>, i: int)
    requires
        0 <= i <= bytes.len(),
    ensures
        i <= space_end(bytes, i) <= bytes.len(),
    decreases bytes.len() - i,
{
    if space_width(bytes, i) > 0 {
        lemma_space_end_bounds(bytes, i + space_width(bytes, i));
    }
}

/// A run of digits ends within the bytes, at or after its start, and holds
/// digits only.
pub proof fn lemma_digits_end_bounds(bytes: Seq<u8>, i: int)
    requires
        0 <= i <= bytes.len(),
    ensures
        i <= digits_end(bytes, i) <= bytes.len(),
        forall|k: int| i <= k < digits_end(bytes, i) ==> is_digit(#[trigger] bytes[k]),
    decreases bytes.len() - i,
{
    if i < bytes.len() && is_digit(bytes[i]) {
        lemma_digits_end_bounds(bytes, i + 1);
    }
}

/// More digits spell no smaller a number.
pub proof fn lemma_decimal_value_grows(bytes: Seq<u8>, from: int, mid: int, to: int)
    requires
        0 <= from <= mid <= to <= bytes.len(),
        forall|k: int| from <= k < to ==> is_digit(#[trigger] bytes[k]),
    ensures
        0 <= decimal_value(bytes, from, mid) <= decimal_value(bytes, from, to),
    decreases to - from,
{
    if mid < to {
        lemma_decimal_value_grows(bytes, from, mid, to - 1);
    } else if from < to {
        lemma_decimal_value_grows(bytes, from, from, to - 1);
        lemma_decimal_value_grows(bytes, from, to - 1, to - 1);
    }
}

/// The length of the white-space character at `i`, or 0.
fn space_width_at(bytes: &[u8], i: usize) -> (width: usize)
    requires
        i <= bytes@.len(),
    ensures
        width == space_width(bytes@, i as int),
        i + width <= bytes@.len(),
{
    let n = bytes.len();
    if i >= n {
        return 0;
    }
    let b0 = bytes[i];
    if (0x09 <= b0 && b0 <= 0x0D) || b0 == 0x20 {
        return 1;
    }
    if n - i >= 2 && b0 == 0xC2 {
        let b1 = bytes[i + 1];
        if b1 == 0x85 || b1 == 0xA0 {
            return 2;
        }
    }
    if n - i >= 3 {
        let b1 = bytes[i + 1];
        let b2 = bytes[i + 2];
        if b0 == 0xE1 && b1 == 0x9A && b2 == 0x80 {
            return 3;
        }
        if b0 == 0xE2 && b1 == 0x80 && ((0x80 <= b2 && b2 <= 0x8A) || b2 == 0xA8 || b2 == 0xA9
            || b2 == 0xAF) {
            return 3;
        }
        if b0 == 0xE2 && b1 == 0x81 && b2 == 0x9F {
            return 3;
        }
        if b0 == 0xE3 && b1 == 0x80 && b2 == 0x80 {
            return 3;
        }
    }
    0
}

/// The end of the white space that starts at `i`.
fn skip_space(bytes: &[u8], i: usize) -> (end: usize)
    requires
        i <= bytes@.len(),
    ensures
        end == space_end(bytes@, i as int),
        i <= end <= bytes@.len(),
{
    let n = bytes.len();
    let mut at: usize = i;
    loop
        invariant
            n == bytes@.len(),
            i <= at <= n,
            space_end(bytes@, at as int) == space_end(bytes@, i as int),
        ensures
            at == space_end(bytes@, i as int),
        decreases n - at,
    {
        let width = space_width_at(bytes, at);
        if width == 0 {
            break;
        }
        at = at + width;
    }
    at
}

/// Reads the sample that the sampling command printed.
///
/// The output counts as a number where it is valid UTF-8 that, with the
/// white space at both ends taken off, is an optional plus sign and decimal
/// digits, and the number fits a `u64`.
pub fn parse_sample(stdout: &[u8]) -> (reading: Result<u64, SampleParseFailure>)
    ensures
        reading == (match sample_reading(stdout@) {
            Some(value) => Ok::<u64, SampleParseFailure>(value),
            None => Err::<u64, SampleParseFailure>(SampleParseFailure),
        }),
{
    let n = stdout.len();
    let after_space = skip_space(stdout, 0);
    let start: usize = if after_space < n && stdout[after_space] == 0x2B {
        after_space + 1
    } else {
        after_space
    };
    let mut at: usize = start;
    let mut value: u64 = 0;
    while at < n && 0x30 <= stdout[at] && stdout[at] <= 0x39
        invariant
            n == stdout@.len(),
            start <= at <= n,
            start == digits_start(stdout@),
            digits_end(stdout@, at as int) == digits_end(stdout@, start as int),
            forall|k: int| start <= k < at ==> is_digit(#[trigger] stdout@[k]),
            value == decimal_value(stdout@, start as int, at as int),
        decreases n - at,
    {
        let digit: u64 = (stdout[at] - 0x30) as u64;
        if value > (u64::MAX - digit) / 10 {
            proof {
                let end = digits_end(stdout@, start as int);
                assert(is_digit(stdout@[at as int]));
                assert(digits_end(stdout@, at as int) == digits_end(stdout@, at + 1));
                lemma_digits_end_bounds(stdout@, at + 1);
                lemma_digits_end_bounds(stdout@, start as int);
                lemma_decimal_value_grows(stdout@, start as int, at + 1, end);
                assert(decimal_value(stdout@, start as int, at + 1) == value * 10 + digit);
            }
            return Err(SampleParseFailure);
        }
        value = value * 10 + digit;
        at = at + 1;
    }
    if at == start {
        return Err(SampleParseFailure);
    }
    let end = skip_space(stdout, at);
    if end == n {
        Ok(value)
    } else {
        Err(SampleParseFailure)
    }
}

} // verus!
