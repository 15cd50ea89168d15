//! Target resolutions written as text: a width, the letter `x`, a height.

use vstd::prelude::*;
use crate::text::chars_of;

verus! {

/// Why a resolution was not accepted.
#[derive(Clone, Copy, Debug, PartialEq, Eq, Structural)]
pub enum ConfigError {
    /// The width or the height is not there.
    MissingDimension,
    /// The width or the height is not a decimal number that fits in 32 bits.
    InvalidNumber,
    /// The width or the height is zero.
    ZeroDimension,
    /// The image cannot be resampled to the size that the resolution names.
    UnsupportedSize,
}

impl ConfigError {
    /// The error in words.
    pub fn message(&self) -> (text: &'static str)
        ensures
            text@ == match *self {
                ConfigError::MissingDimension => "resolution lacks a width or a height"@,
                ConfigError::InvalidNumber => "resolution holds an invalid number"@,
                ConfigError::ZeroDimension => "resolution holds a zero"@,
                ConfigError::UnsupportedSize => "image cannot be resized to the resolution"@,
            },
    {
        match self {
            ConfigError::MissingDimension => "resolution lacks a width or a height",
            ConfigError::InvalidNumber => "resolution holds an invalid number",
            ConfigError::ZeroDimension => "resolution holds a zero",
            ConfigError::UnsupportedSize => "image cannot be resized to the resolution",
        }
    }
}

/// Whether `c` is one of the ten decimal digits.
pub open spec fn is_digit(c: char) -> bool {
    '0' <= c && c <= '9'
}

/// The number that a decimal digit stands for.
pub open spec fn digit_value(c: char) -> nat {
    (c as int - '0' as int) as nat
}

/// Whether `s` holds decimal digits only.
pub open spec fn all_digits(s: Seq<char>) -> bool {
    forall|i: int| 0 <= i < s.len() ==> is_digit(#[trigger] s[i])
}

/// The number that a run of decimal digits stands for.
pub open spec fn decimal_value(s: Seq<char>) -> nat
    decreases s.len(),
{
    if s.len() == 0 {
        0
    } else {
        decimal_value(s.drop_last()) * 10 + digit_value(s.last())
    }
}

/// A field without the plus sign that may stand before its digits.
pub open spec fn unsigned_part(field: Seq<char>) -> Seq<char> {
    if field.len() > 0 && field[0] == '+' {
        field.drop_first()
    } else {
        field
    }
}

/// What one field of a resolution says: a positive number that fits in 32
/// bits, written in decimal digits after an optional plus sign.
pub open spec fn dimension_of(field: Seq<char>) -> Result<u32, ConfigError> {
    let digits = unsigned_part(field);
    if field.len() == 0 {
        Err(ConfigError::MissingDimension)
    } else if digits.len() == 0 || !all_digits(digits) || decimal_value(digits) > u32::MAX {
        Err(ConfigError::InvalidNumber)
    } else if decimal_value(digits) == 0 {
        Err(ConfigError::ZeroDimension)
    } else {
        Ok(decimal_value(digits) as u32)
    }
}

/// Where the field that begins at `from` ends: at the next `x`, or at the end
/// of the text.
pub open spec fn field_end(s: Seq<char>, from: int) -> int
    decreases s.len() - from,
{
    if from < 0 || from >= s.len() || s[from] == 'x' {
        from
    } else {
        field_end(s, from + 1)
    }
}

/// What a resolution says. The empty text asks for no resizing. Any other
/// text is cut at each `x`: its first field is the width and its second the
/// height, and further fields are not read. The width is judged first. The
/// text alone never gives `UnsupportedSize`, which depends on the image.
pub open spec fn resolution_of(s: Seq<char>) -> Result<Option<(u32, u32)>, ConfigError> {
    let a = field_end(s, 0);
    let b = field_end(s, a + 1);
    if s.len() == 0 {
        Ok(None)
    } else {
        match dimension_of(s.subrange(0, a)) {
            Err(e) => Err(e),
            Ok(w) => if a >= s.len() {
                Err(ConfigError::MissingDimension)
            } else {
                match dimension_of(s.subrange(a + 1, b)) {
                    Err(e) => Err(e),
                    Ok(h) => Ok(Some((w, h))),
                }
            },
        }
    }
}

fn find_field_end(chars: &Vec<char>, from: usize) -> (end: usize)
    requires
        from <= chars@.len(),
    ensures
        end == field_end(chars@, from as int),
        from <= end <= chars@.len(),
{
    let mut i: usize = from;
    while i < chars.len() && chars[i] != 'x'
        invariant
            from <= i <= chars@.len(),
            field_end(chars@, from as int) == field_end(chars@, i as int),
        decreases chars@.len() - i,
    {
        i += 1;
    }
    i
}

fn digit_of(c: char) -> (d: Option<u64>)
    ensures
        d is Some <==> is_digit(c),
        d is Some ==> d->0 == digit_value(c),
{
    match c {
        '0' => Some(0),
        '1' => Some(1),
        '2' => Some(2),
        '3' => Some(3),
        '4' => Some(4),
        '5' => Some(5),
        '6' => Some(6),
        '7' => Some(7),
        '8' => Some(8),
        '9' => Some(9),
        _ => None,
    }
}

fn parse_dimension(chars: &Vec<char>, from: usize, to: usize) -> (r: Result<u32, ConfigError>)
    requires
        from <= to <= chars@.len(),
    ensures
        r == dimension_of(chars@.subrange(from as int, to as int)),
{
    let ghost field = chars@.subrange(from as int, to as int);
    if from == to {
        return Err(ConfigError::MissingDimension);
    }
    let start: usize = if chars[from] == '+' { from + 1 } else { from };
    let ghost digits = chars@.subrange(start as int, to as int);
    assert(digits == unsigned_part(field));
    if start == to {
        return Err(ConfigError::InvalidNumber);
    }
    let mut value: u64 = 0;
    let mut overflow: bool = false;
    let mut i: usize = start;
    while i < to
        invariant
            from <= start <= i <= to <= chars@.len(),
            from < to,
            start < to,
            field == chars@.subrange(from as int, to as int),
            digits == chars@.subrange(start as int, to as int),
            digits == unsigned_part(field),
            all_digits(digits.take(i - start)),
            !overflow ==> value == decimal_value(digits.take(i - start)) && value <= u32::MAX,
            overflow ==> decimal_value(digits.take(i - start)) > u32::MAX,
        decreases to - i,
    {
        let ghost before = digits.take(i - start);
        let ghost after = digits.take(i + 1 - start);
        proof {
            assert(after.drop_last() == before);
            assert(after.last() == chars@[i as int]);
        }
        match digit_of(chars[i]) {
            None => {
                assert(!is_digit(digits[i - start]));
                return Err(ConfigError::InvalidNumber);
            },
            Some(d) => {
                if !overflow {
                    value = value * 10 + d;
                    if value > 0xffff_ffff {
                        overflow = true;
                    }
                }
                assert(all_digits(after)) by {
                    assert forall|k: int| 0 <= k < after.len() implies
                        is_digit(#[trigger] after[k]) by {
                        if k < before.len() {
                            assert(after[k] == before[k]);
                        }
                    }
                }
            },
        }
        i += 1;
    }
    assert(digits.take(to - start) == digits);
    if overflow {
        Err(ConfigError::InvalidNumber)
    } else if value == 0 {
        Err(ConfigError::ZeroDimension)
    } else {
        Ok(value as u32)
    }
}

/// Reads a resolution: `Ok(None)` for the empty text, the width and the
/// height for a text such as `800x600`, and the reason for any other.
pub fn parse_resolution(res: &str) -> (r: Result<Option<(u32, u32)>, ConfigError>)
    ensures
        r == resolution_of(res@),
{
    let chars = chars_of(res);
    if chars.len() == 0 {
        return Ok(None);
    }
    let a = find_field_end(&chars, 0);
    let width = match parse_dimension(&chars, 0, a) {
        Err(e) => {
            return Err(e);
        },
        Ok(w) => w,
    };
    if a >= chars.len() {
        return Err(ConfigError::MissingDimension);
    }
    let b = find_field_end(&chars, a + 1);
    match parse_dimension(&chars, a + 1, b) {
        Err(e) => Err(e),
        Ok(height) => Ok(Some((width, height))),
    }
}

} // verus!
