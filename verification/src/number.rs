//! Whole numbers read from decimal text: an optional sign, then digits only.

use vstd::prelude::*;
use vstd::utf8::encode_utf8;

verus! {

/// Why a text is not a number of the wanted type.
#[derive(Debug, Clone, Copy, PartialEq, Eq, Structural)]
pub enum ParseIntError {
    /// The text is empty.
    Empty,
    /// The text holds something other than a digit, or a sign and nothing else.
    InvalidDigit,
    /// The number is above the largest value of the type.
    PosOverflow,
    /// The number is below the smallest value of the type.
    NegOverflow,
}

impl ParseIntError {
    /// What the error says.
    pub open spec fn text(self) -> Seq<char> {
        match self {
            ParseIntError::Empty => "cannot parse integer from empty string"@,
            ParseIntError::InvalidDigit => "invalid digit found in string"@,
            ParseIntError::PosOverflow => "number too large to fit in target type"@,
            ParseIntError::NegOverflow => "number too small to fit in target type"@,
        }
    }

    /// What the error says.
    pub fn description(&self) -> (said: String)
        ensures
            said@ == self.text(),
    {
        match self {
            ParseIntError::Empty => "cannot parse integer from empty string".to_owned(),
            ParseIntError::InvalidDigit => "invalid digit found in string".to_owned(),
            ParseIntError::PosOverflow => "number too large to fit in target type".to_owned(),
            ParseIntError::NegOverflow => "number too small to fit in target type".to_owned(),
        }
    }
}

/// The byte `+`.
pub const PLUS: u8 = 43;

/// The byte `-`.
pub const MINUS: u8 = 45;

/// The byte is one of `0` to `9`.
pub open spec fn is_digit(byte: u8) -> bool {
    48 <= byte <= 57
}

/// The number that a digit stands for.
pub open spec fn digit_value(byte: u8) -> int {
    byte - 48
}

/// One more digit read into `acc`: away from zero on the side of the sign.
pub open spec fn shift_in(acc: int, digit: u8, negative: bool) -> int {
    if negative {
        acc * 10 - digit_value(digit)
    } else {
        acc * 10 + digit_value(digit)
    }
}

/// Reads `digits` from left to right into `acc`. The first byte that is no digit,
/// or that takes the number out of `lo ..= hi`, ends the reading with its error.
pub open spec fn read_digits(digits: Seq<u8>, acc: int, negative: bool, lo: int, hi: int) -> Result<
    int,
    ParseIntError,
>
    decreases digits.len(),
{
    if digits.len() == 0 {
        Ok(acc)
    } else if !is_digit(digits[0]) {
        Err(ParseIntError::InvalidDigit)
    } else if shift_in(acc, digits[0], negative) > hi {
        Err(ParseIntError::PosOverflow)
    } else if shift_in(acc, digits[0], negative) < lo {
        Err(ParseIntError::NegOverflow)
    } else {
        read_digits(digits.drop_first(), shift_in(acc, digits[0], negative), negative, lo, hi)
    }
}

/// The number in `lo ..= hi` that `text` spells, or why it spells none. A leading
/// `+` is always taken as a sign, a leading `-` only where `signed` holds.
pub open spec fn parse_int(text: Seq<u8>, signed: bool, lo: int, hi: int) -> Result<
    int,
    ParseIntError,
> {
    if text.len() == 0 {
        Err(ParseIntError::Empty)
    } else if text.len() == 1 && (text[0] == PLUS || text[0] == MINUS) {
        Err(ParseIntError::InvalidDigit)
    } else if text[0] == PLUS {
        read_digits(text.drop_first(), 0, false, lo, hi)
    } else if text[0] == MINUS && signed {
        read_digits(text.drop_first(), 0, true, lo, hi)
    } else {
        read_digits(text, 0, false, lo, hi)
    }
}

/// The `i32` that `text` spells.
pub open spec fn parse_i32_spec(text: Seq<u8>) -> Result<i32, ParseIntError> {
    match parse_int(text, true, i32::MIN as int, i32::MAX as int) {
        Ok(value) => Ok(value as i32),
        Err(error) => Err(error),
    }
}

/// The `u32` that `text` spells.
pub open spec fn parse_u32_spec(text: Seq<u8>) -> Result<u32, ParseIntError> {
    match parse_int(text, false, 0, u32::MAX as int) {
        Ok(value) => Ok(value as u32),
        Err(error) => Err(error),
    }
}

/// Every byte is a digit.
pub open spec fn all_digits(digits: Seq<u8>) -> bool {
    forall|i: int| 0 <= i < digits.len() ==> is_digit(#[trigger] digits[i])
}

/// The number that `digits` spell when read into `acc`, with no bound on it.
pub open spec fn value_of(digits: Seq<u8>, acc: int, negative: bool) -> int
    decreases digits.len(),
{
    if digits.len() == 0 {
        acc
    } else {
        value_of(digits.drop_first(), shift_in(acc, digits[0], negative), negative)
    }
}

/// The digits of a text: what follows its sign, or all of it where it has none.
pub open spec fn digits_of(text: Seq<u8>, signed: bool) -> Seq<u8> {
    if text.len() > 0 && (text[0] == PLUS || (text[0] == MINUS && signed)) {
        text.drop_first()
    } else {
        text
    }
}

/// The text is a numeral: an optional sign, then at least one digit, nothing else.
pub open spec fn is_numeral(text: Seq<u8>, signed: bool) -> bool {
    digits_of(text, signed).len() > 0 && all_digits(digits_of(text, signed))
}

/// The number that a numeral spells.
pub open spec fn numeral_value(text: Seq<u8>, signed: bool) -> int {
    value_of(digits_of(text, signed), 0, signed && text.len() > 0 && text[0] == MINUS)
}

/// Digits only take a number away from zero.
proof fn value_grows(digits: Seq<u8>, acc: int, negative: bool)
    requires
        all_digits(digits),
        negative ==> acc <= 0,
        !negative ==> acc >= 0,
    ensures
        negative ==> value_of(digits, acc, negative) <= acc,
        !negative ==> value_of(digits, acc, negative) >= acc,
    decreases digits.len(),
{
    if digits.len() > 0 {
        assert(is_digit(digits[0]));
        assert forall|i: int| 0 <= i < digits.drop_first().len() implies is_digit(
            #[trigger] digits.drop_first()[i],
        ) by {
            assert(digits.drop_first()[i] == digits[i + 1]);
        }
        value_grows(digits.drop_first(), shift_in(acc, digits[0], negative), negative);
    }
}

/// Reading within bounds succeeds exactly on digits whose number is within the
/// bounds, and then gives that number.
pub proof fn read_digits_gives_value(digits: Seq<u8>, acc: int, negative: bool, lo: int, hi: int)
    requires
        lo <= 0 <= hi,
        lo <= acc <= hi,
        negative ==> acc <= 0,
        !negative ==> acc >= 0,
    ensures
        read_digits(digits, acc, negative, lo, hi) is Ok <==> all_digits(digits) && lo <= value_of(
            digits,
            acc,
            negative,
        ) <= hi,
        read_digits(digits, acc, negative, lo, hi) matches Ok(value) ==> value == value_of(
            digits,
            acc,
            negative,
        ),
    decreases digits.len(),
{
    if digits.len() > 0 {
        let rest = digits.drop_first();
        let next = shift_in(acc, digits[0], negative);
        if is_digit(digits[0]) {
            assert(all_digits(digits) <==> all_digits(rest)) by {
                if all_digits(digits) {
                    assert forall|i: int| 0 <= i < rest.len() implies is_digit(#[trigger] rest[i]) by {
                        assert(rest[i] == digits[i + 1]);
                    }
                }
                if all_digits(rest) {
                    assert forall|i: int| 0 <= i < digits.len() implies is_digit(
                        #[trigger] digits[i],
                    ) by {
                        if i > 0 {
                            assert(digits[i] == rest[i - 1]);
                        }
                    }
                }
            }
            if lo <= next <= hi {
                read_digits_gives_value(rest, next, negative, lo, hi);
            } else if all_digits(rest) {
                value_grows(rest, next, negative);
            }
        } else {
            assert(!all_digits(digits));
        }
    }
}

/// A text is read as a number exactly when it is a numeral whose number is
/// within the bounds, and then as that number.
pub proof fn parse_int_reads_numerals(text: Seq<u8>, signed: bool, lo: int, hi: int)
    requires
        lo <= 0 <= hi,
    ensures
        parse_int(text, signed, lo, hi) is Ok <==> is_numeral(text, signed) && lo <= numeral_value(
            text,
            signed,
        ) <= hi,
        parse_int(text, signed, lo, hi) matches Ok(value) ==> value == numeral_value(text, signed),
{
    if text.len() > 0 {
        let negative = signed && text[0] == MINUS;
        read_digits_gives_value(digits_of(text, signed), 0, negative, lo, hi);
        if text.len() == 1 && (text[0] == PLUS || text[0] == MINUS) {
            if !(text[0] == PLUS || (text[0] == MINUS && signed)) {
                assert(!is_digit(digits_of(text, signed)[0]));
            }
        }
    }
}

/// Reads the digits of `text` from `start` on.
fn read(text: &[u8], start: usize, negative: bool, lo: i64, hi: i64) -> (number: Result<
    i64,
    ParseIntError,
>)
    requires
        start <= text@.len(),
        -0x1_0000_0000 <= lo <= 0 <= hi <= 0x1_0000_0000,
    ensures
        match number {
            Ok(value) => read_digits(
                text@.subrange(start as int, text@.len() as int),
                0,
                negative,
                lo as int,
                hi as int,
            ) == Ok::<int, ParseIntError>(value as int) && lo <= value <= hi,
            Err(error) => read_digits(
                text@.subrange(start as int, text@.len() as int),
                0,
                negative,
                lo as int,
                hi as int,
            ) == Err::<int, ParseIntError>(error),
        },
{
    let end: usize = text.len();
    let mut acc: i64 = 0;
    let mut at: usize = start;
    while at < end
        invariant
            start <= at <= end == text@.len(),
            -0x1_0000_0000 <= lo <= acc <= hi <= 0x1_0000_0000,
            lo <= 0 <= hi,
            read_digits(text@.subrange(start as int, end as int), 0, negative, lo as int, hi as int)
                == read_digits(
                text@.subrange(at as int, end as int),
                acc as int,
                negative,
                lo as int,
                hi as int,
            ),
        decreases end - at,
    {
        let byte: u8 = text[at];
        proof {
            let rest = text@.subrange(at as int, end as int);
            assert(rest[0] == byte);
            assert(rest.drop_first() =~= text@.subrange(at + 1, end as int));
        }
        if byte < 48 || byte > 57 {
            return Err(ParseIntError::InvalidDigit);
        }
        let digit: i64 = (byte - 48) as i64;
        let next: i64 = if negative {
            acc * 10 - digit
        } else {
            acc * 10 + digit
        };
        if next > hi {
            return Err(ParseIntError::PosOverflow);
        }
        if next < lo {
            return Err(ParseIntError::NegOverflow);
        }
        acc = next;
        at += 1;
    }
    assert(text@.subrange(at as int, end as int).len() == 0);
    Ok(acc)
}

/// Reads a number in `lo ..= hi` from `text`.
fn parse(text: &[u8], signed: bool, lo: i64, hi: i64) -> (number: Result<i64, ParseIntError>)
    requires
        -0x1_0000_0000 <= lo <= 0 <= hi <= 0x1_0000_0000,
    ensures
        match number {
            Ok(value) => parse_int(text@, signed, lo as int, hi as int) == Ok::<int, ParseIntError>(
                value as int,
            ) && lo <= value <= hi,
            Err(error) => parse_int(text@, signed, lo as int, hi as int) == Err::<
                int,
                ParseIntError,
            >(error),
        },
{
    if text.len() == 0 {
        return Err(ParseIntError::Empty);
    }
    let first: u8 = text[0];
    if text.len() == 1 && (first == PLUS || first == MINUS) {
        return Err(ParseIntError::InvalidDigit);
    }
    proof {
        assert(text@.subrange(1, text@.len() as int) =~= text@.drop_first());
        assert(text@.subrange(0, text@.len() as int) =~= text@);
    }
    if first == PLUS {
        read(text, 1, false, lo, hi)
    } else if first == MINUS && signed {
        read(text, 1, true, lo, hi)
    } else {
        read(text, 0, false, lo, hi)
    }
}

/// The `i32` that the bytes of a text spell, read as the standard library reads one:
/// an optional `+` or `-`, then at least one digit, and nothing else.
pub fn parse_i32(text: &[u8]) -> (number: Result<i32, ParseIntError>)
    ensures
        number == parse_i32_spec(text@),
{
    match parse(text, true, -0x8000_0000, 0x7fff_ffff) {
        Ok(value) => Ok(value as i32),
        Err(error) => Err(error),
    }
}

/// The `u32` that the bytes of a text spell: an optional `+`, then at least one
/// digit, and nothing else.
pub fn parse_u32(text: &[u8]) -> (number: Result<u32, ParseIntError>)
    ensures
        number == parse_u32_spec(text@),
{
    match parse(text, false, 0, 0xffff_ffff) {
        Ok(value) => Ok(value as u32),
        Err(error) => Err(error),
    }
}

/// The `i32` that a text spells.
pub open spec fn text_to_i32(text: Seq<char>) -> Result<i32, ParseIntError> {
    parse_i32_spec(encode_utf8(text))
}

/// Reads an `i32` from a text.
pub fn parse_i32_text(text: &str) -> (number: Result<i32, ParseIntError>)
    ensures
        number == text_to_i32(text@),
{
    parse_i32(text.as_bytes())
}

} // verus!
