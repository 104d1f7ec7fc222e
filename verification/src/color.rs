//! Colours written as text: three numbers from 0 to 255, separated by commas.
//!
//! The text is split into fields at its commas. A field counts if it is a
//! number: an optional plus sign followed by one or more decimal digits, with
//! a value of at most 255. Any other field is passed over. The text denotes a
//! colour if exactly three fields count; they are its red, green and blue
//! parts in that order.

use vstd::prelude::*;
use vstd::utf8::encode_utf8;

verus! {

/// The byte `,`, which separates fields.
pub const COMMA: u8 = 0x2C;

/// The byte `+`, which may precede the digits of a number.
pub const PLUS: u8 = 0x2B;

/// The byte `0`, the first of the ten decimal digits.
pub const ZERO: u8 = 0x30;

/// `byte` is one of the characters `0` to `9`.
pub open spec fn is_digit(byte: u8) -> bool {
    ZERO <= byte <= ZERO + 9
}

/// Every byte of `text` is a decimal digit.
pub open spec fn all_digits(text: Seq<u8>) -> bool {
    forall|i: int| 0 <= i < text.len() ==> is_digit(#[trigger] text[i])
}

/// The value of a string of decimal digits, most significant first.
pub open spec fn decimal(digits: Seq<u8>) -> int
    decreases digits.len(),
{
    if digits.len() == 0 {
        0
    } else {
        decimal(digits.drop_last()) * 10 + (digits.last() - ZERO)
    }
}

/// The byte that the field `text` denotes, if it is a number: an optional
/// plus sign, then at least one digit and nothing but digits, with a value of
/// at most 255.
pub open spec fn number(text: Seq<u8>) -> Option<u8> {
    let digits = if text.len() > 0 && text[0] == PLUS {
        text.skip(1)
    } else {
        text
    };
    if digits.len() > 0 && all_digits(digits) && decimal(digits) <= 255 {
        Some(decimal(digits) as u8)
    } else {
        None
    }
}

/// Where the field that starts at `from` ends: the position of the first
/// comma at or after `from`, or the length of `text` if there is none.
pub open spec fn field_end(text: Seq<u8>, from: int) -> int
    decreases text.len() - from,
{
    if 0 <= from < text.len() && text[from] != COMMA {
        field_end(text, from + 1)
    } else {
        from
    }
}

/// A field that starts within the text ends at or after its start and within
/// the text.
pub proof fn lemma_field_end_bounds(text: Seq<u8>, from: int)
    requires
        0 <= from <= text.len(),
    ensures
        from <= field_end(text, from) <= text.len(),
        field_end(text, from) < text.len() ==> text[field_end(text, from)] == COMMA,
        forall|i: int| from <= i < field_end(text, from) ==> text[i] != COMMA,
    decreases text.len() - from,
{
    if from < text.len() && text[from] != COMMA {
        lemma_field_end_bounds(text, from + 1);
    }
}

/// The numbers among the fields of `text` that start at `from` or later, in
/// the order of the fields.
pub open spec fn numbers_from(text: Seq<u8>, from: int) -> Seq<u8>
    decreases text.len() - from,
{
    if 0 <= from <= text.len() {
        let end = field_end(text, from);
        let head = match number(text.subrange(from, end)) {
            Some(value) => seq![value],
            None => seq![],
        };
        if end < text.len() {
            proof {
                lemma_field_end_bounds(text, from);
            }
            head + numbers_from(text, end + 1)
        } else {
            head
        }
    } else {
        seq![]
    }
}

/// The colour that `text` denotes, or `default` if it denotes none.
pub open spec fn color_of(text: Seq<u8>, default: (u8, u8, u8)) -> (u8, u8, u8) {
    let numbers = numbers_from(text, 0);
    if numbers.len() == 3 {
        (numbers[0], numbers[1], numbers[2])
    } else {
        default
    }
}

/// A string of digits is worth at least as much as any of its prefixes.
proof fn lemma_decimal_prefix(digits: Seq<u8>, len: int)
    requires
        all_digits(digits),
        0 <= len <= digits.len(),
    ensures
        0 <= decimal(digits.take(len)) <= decimal(digits),
    decreases digits.len(),
{
    if digits.len() == 0 {
        assert(digits.take(len) =~= digits);
    } else if len == digits.len() {
        assert(digits.take(len) =~= digits);
        lemma_decimal_prefix(digits.drop_last(), len - 1);
        assert(is_digit(digits.last()));
    } else {
        assert(digits.drop_last().take(len) =~= digits.take(len));
        assert(all_digits(digits.drop_last()));
        lemma_decimal_prefix(digits.drop_last(), len);
        assert(is_digit(digits.last()));
    }
}

/// Finds the end of the field that starts at `from`.
fn find_field_end(text: &[u8], from: usize) -> (end: usize)
    requires
        from <= text@.len(),
    ensures
        end == field_end(text@, from as int),
        from <= end <= text@.len(),
{
    let mut end = from;
    while end < text.len() && text[end] != COMMA
        invariant
            from <= end <= text@.len(),
            field_end(text@, end as int) == field_end(text@, from as int),
        decreases text@.len() - end,
    {
        end += 1;
    }
    end
}

/// Reads the field `text[start..end]` as a number.
fn parse_number(text: &[u8], start: usize, end: usize) -> (value: Option<u8>)
    requires
        start <= end <= text@.len(),
    ensures
        value == number(text@.subrange(start as int, end as int)),
{
    let ghost field = text@.subrange(start as int, end as int);
    let mut i = start;
    if i < end && text[i] == PLUS {
        i += 1;
    }
    let first = i;
    let ghost digits = text@.subrange(first as int, end as int);
    assert(digits =~= if field.len() > 0 && field[0] == PLUS {
        field.skip(1)
    } else {
        field
    });
    if i == end {
        return None;
    }
    let mut value: u32 = 0;
    while i < end
        invariant
            first <= i <= end <= text@.len(),
            digits == text@.subrange(first as int, end as int),
            field == text@.subrange(start as int, end as int),
            digits == if field.len() > 0 && field[0] == PLUS {
                field.skip(1)
            } else {
                field
            },
            all_digits(digits.take(i - first)),
            value == decimal(digits.take(i - first)),
            value <= 255,
        decreases end - i,
    {
        let byte = text[i];
        if byte < ZERO || byte > ZERO + 9 {
            assert(!is_digit(digits[i - first]));
            return None;
        }
        let ghost read = digits.take(i - first + 1);
        assert(read.drop_last() =~= digits.take(i - first));
        assert(read.last() == byte);
        assert forall|k: int| 0 <= k < read.len() implies is_digit(#[trigger] read[k]) by {
            if k < read.len() - 1 {
                assert(is_digit(digits.take(i - first)[k]));
            }
        }
        value = value * 10 + (byte - ZERO) as u32;
        if value > 255 {
            proof {
                if all_digits(digits) {
                    lemma_decimal_prefix(digits, i - first + 1);
                }
            }
            return None;
        }
        i += 1;
    }
    assert(digits.take(i - first) =~= digits);
    Some(value as u8)
}

/// Reads `text` as a colour and returns `default` if it is none.
pub fn parse_color_bytes(text: &[u8], default: (u8, u8, u8)) -> (color: (u8, u8, u8))
    ensures
        color == color_of(text@, default),
{
    let mut numbers: Vec<u8> = Vec::new();
    let mut start: usize = 0;
    loop
        invariant_except_break
            numbers@ + numbers_from(text@, start as int) == numbers_from(text@, 0),
        invariant
            start <= text@.len(),
        ensures
            numbers@ == numbers_from(text@, 0),
        decreases text@.len() - start,
    {
        let end = find_field_end(text, start);
        let ghost collected = numbers@;
        match parse_number(text, start, end) {
            Some(value) => {
                numbers.push(value);
            },
            None => {},
        }
        if end >= text.len() {
            assert(numbers@ =~= collected + numbers_from(text@, start as int));
            break;
        }
        assert(numbers@ + numbers_from(text@, end + 1) =~= collected + numbers_from(
            text@,
            start as int,
        ));
        start = end + 1;
    }
    if numbers.len() == 3 {
        (numbers[0], numbers[1], numbers[2])
    } else {
        default
    }
}

/// Reads the text in `color_str` as a colour. Returns `default` if there is
/// no text or if the text is not a colour.
pub fn parse_color(color_str: Option<String>, default: (u8, u8, u8)) -> (color: (u8, u8, u8))
    ensures
        color == match color_str {
            Some(text) => color_of(encode_utf8(text@), default),
            None => default,
        },
{
    match color_str {
        Some(text) => parse_color_bytes(text.as_str().as_bytes(), default),
        None => default,
    }
}

} // verus!
