//! The rows of the database, and the plan by which the old stock is taken over.

use chrono::NaiveDate;
use rust_decimal::Decimal;
use vstd::prelude::*;
use vstd::slice::slice_subrange;
use vstd::utf8::encode_utf8;

use crate::calendar::date_from_ymd;
use crate::calendar::from_ymd_opt;
use crate::calendar::is_calendar_date;
use crate::number::parse_i32;
use crate::number::parse_i32_spec;
use crate::number::parse_u32;
use crate::number::parse_u32_spec;
use crate::number::read_digits;
use crate::number::ParseIntError;
use crate::number::MINUS;
use crate::server::AppError;

verus! {

/// A row of the table of items.
#[derive(Debug, PartialEq)]
pub struct Item {
    pub barcode: String,
    pub name: String,
    pub cost: Decimal,
    pub price: Decimal,
    pub quantity: i32,
    pub image: Option<Vec<u8>>,
}

/// The two texts of a row of the old stock that decide what becomes of it.
#[derive(Debug, PartialEq)]
pub struct LegacyRow {
    pub barcode: String,
    pub expire_date: String,
}

/// What becomes of one row of the old stock.
#[derive(Debug, Clone, Copy, PartialEq)]
pub enum Step {
    /// The row is left out.
    Skip,
    /// The row is stored as an item, with this expiry date where it has one.
    Store(Option<NaiveDate>),
}

/// The take-over of the old stock: a step for each row up to the first that
/// cannot be read, and the error of that row.
#[derive(Debug, PartialEq)]
pub struct Plan {
    pub steps: Vec<Step>,
    pub outcome: Result<(), AppError>,
}

/// Rows whose barcode is a number up to this one are left out of the take-over.
pub const SKIPPED_UP_TO: i32 = 1000;

/// The barcode is a number, and no larger than [`SKIPPED_UP_TO`]: such rows are
/// left out.
pub open spec fn is_skipped(barcode: Seq<u8>) -> bool {
    parse_i32_spec(barcode) matches Ok(number) && number <= SKIPPED_UP_TO
}

/// The text falls into three parts of four, two and two bytes, parted by `-`.
pub open spec fn has_date_shape(text: Seq<u8>) -> bool {
    &&& text.len() == 10
    &&& forall|i: int| 0 <= i < 10 ==> (#[trigger] text[i] == MINUS <==> i == 4 || i == 7)
}

/// The expiry date that a text of the old stock gives. A text of another shape
/// gives none. Of the three parts the last is read as the year, the middle one as
/// the month and the first as the day, in that order; the first that is no number
/// is an error. Numbers that name no day of the calendar give no date.
pub open spec fn expire_date(text: Seq<u8>) -> Result<Option<NaiveDate>, ParseIntError> {
    if !has_date_shape(text) {
        Ok(None)
    } else {
        match parse_i32_spec(text.subrange(8, 10)) {
            Err(error) => Err(error),
            Ok(year) => match parse_u32_spec(text.subrange(5, 7)) {
                Err(error) => Err(error),
                Ok(month) => match parse_u32_spec(text.subrange(0, 4)) {
                    Err(error) => Err(error),
                    Ok(day) => Ok(date_from_ymd(year as int, month as int, day as int)),
                },
            },
        }
    }
}

/// The year, the month and the day that a text of the old stock spells, where it
/// has the shape of a date and its three parts are numbers.
pub open spec fn expire_numbers(text: Seq<u8>) -> Option<(int, int, int)> {
    if has_date_shape(text) {
        match (
            parse_i32_spec(text.subrange(8, 10)),
            parse_u32_spec(text.subrange(5, 7)),
            parse_u32_spec(text.subrange(0, 4)),
        ) {
            (Ok(year), Ok(month), Ok(day)) => Some((year as int, month as int, day as int)),
            _ => None,
        }
    } else {
        None
    }
}

/// The text gives an expiry date: its numbers name a day of the calendar.
pub open spec fn names_a_day(text: Seq<u8>) -> bool {
    expire_numbers(text) matches Some((year, month, day)) && is_calendar_date(year, month, day)
}

/// The row is stored with an expiry date.
pub open spec fn stores_date(row: LegacyRow) -> bool {
    !is_skipped(encode_utf8(row.barcode@)) && names_a_day(encode_utf8(row.expire_date@))
}

/// What becomes of a row with these two texts.
pub open spec fn step_for(barcode: Seq<u8>, expire: Seq<u8>) -> Result<Step, ParseIntError> {
    if is_skipped(barcode) {
        Ok(Step::Skip)
    } else {
        match expire_date(expire) {
            Ok(date) => Ok(Step::Store(date)),
            Err(error) => Err(error),
        }
    }
}

/// What becomes of a row.
pub open spec fn row_step(row: LegacyRow) -> Result<Step, ParseIntError> {
    step_for(encode_utf8(row.barcode@), encode_utf8(row.expire_date@))
}

/// A text of at most four bytes is a number in range, or holds something that is
/// no digit: it is too short to be out of range.
proof fn short_text_fails_only_on_digits(text: Seq<u8>)
    requires
        0 < text.len() <= 4,
    ensures
        parse_i32_spec(text) matches Err(error) ==> error == ParseIntError::InvalidDigit,
        parse_u32_spec(text) matches Err(error) ==> error == ParseIntError::InvalidDigit,
{
    reveal_with_fuel(read_digits, 5);
    let rest = text.drop_first();
    if rest.len() > 0 {
        let rest2 = rest.drop_first();
        if rest2.len() > 0 {
            let rest3 = rest2.drop_first();
            if rest3.len() > 0 {
                assert(rest3.drop_first().len() == 0);
            }
        }
    }
}

/// An expiry date can fail in one way only: a part of it holds something other
/// than digits. The parts are too short to be empty or out of range.
pub proof fn expiry_fails_only_on_digits(text: Seq<u8>)
    ensures
        expire_date(text) matches Err(error) ==> error == ParseIntError::InvalidDigit,
{
    if has_date_shape(text) {
        short_text_fails_only_on_digits(text.subrange(8, 10));
        short_text_fails_only_on_digits(text.subrange(5, 7));
        short_text_fails_only_on_digits(text.subrange(0, 4));
    }
}

/// The only error that a row can end the take-over with is that of an expiry date
/// with something other than digits in it.
pub proof fn row_fails_only_on_digits(barcode: Seq<u8>, expire: Seq<u8>)
    ensures
        step_for(barcode, expire) matches Err(error) ==> error == ParseIntError::InvalidDigit,
{
    expiry_fails_only_on_digits(expire);
}

/// Whether the text falls into three parts of four, two and two bytes.
pub fn check_date_shape(text: &[u8]) -> (shaped: bool)
    ensures
        shaped == has_date_shape(text@),
{
    if text.len() != 10 {
        return false;
    }
    let mut i: usize = 0;
    while i < 10
        invariant
            i <= 10,
            text@.len() == 10,
            forall|k: int| 0 <= k < i ==> (#[trigger] text@[k] == MINUS <==> k == 4 || k == 7),
        decreases 10 - i,
    {
        let parts: bool = i == 4 || i == 7;
        if (text[i] == MINUS) != parts {
            return false;
        }
        i += 1;
    }
    true
}

/// Reads the expiry date of a row of the old stock.
pub fn read_expire_date(text: &[u8]) -> (date: Result<Option<NaiveDate>, ParseIntError>)
    ensures
        date == expire_date(text@),
        date matches Ok(Some(_)) <==> names_a_day(text@),
{
    if !check_date_shape(text) {
        return Ok(None);
    }
    let year: i32 = match parse_i32(slice_subrange(text, 8, 10)) {
        Ok(year) => year,
        Err(error) => {
            return Err(error);
        },
    };
    let month: u32 = match parse_u32(slice_subrange(text, 5, 7)) {
        Ok(month) => month,
        Err(error) => {
            return Err(error);
        },
    };
    let day: u32 = match parse_u32(slice_subrange(text, 0, 4)) {
        Ok(day) => day,
        Err(error) => {
            return Err(error);
        },
    };
    Ok(from_ymd_opt(year, month, day))
}

/// Decides what becomes of a row of the old stock.
pub fn plan_row(row: &LegacyRow) -> (step: Result<Step, ParseIntError>)
    ensures
        step == row_step(*row),
        step matches Ok(Step::Store(Some(_))) <==> stores_date(*row),
{
    let skipped: bool = match parse_i32(row.barcode.as_str().as_bytes()) {
        Ok(number) => number <= SKIPPED_UP_TO,
        Err(_) => false,
    };
    if skipped {
        return Ok(Step::Skip);
    }
    match read_expire_date(row.expire_date.as_str().as_bytes()) {
        Ok(date) => Ok(Step::Store(date)),
        Err(error) => Err(error),
    }
}

/// Plans the take-over of the old stock, row by row in their order. The plan
/// holds a step for every row before the first that cannot be read, and ends in
/// that row's error; where every row can be read it holds a step for each.
pub fn sync_database(rows: &Vec<LegacyRow>) -> (plan: Plan)
    ensures
        plan.steps@.len() <= rows@.len(),
        forall|i: int|
            0 <= i < plan.steps@.len() ==> row_step(#[trigger] rows@[i]) == Ok::<
                Step,
                ParseIntError,
            >(plan.steps@[i]),
        forall|i: int|
            0 <= i < plan.steps@.len() ==> (#[trigger] plan.steps@[i] matches Step::Store(Some(_))
                <==> stores_date(rows@[i])),
        match plan.outcome {
            Ok(()) => plan.steps@.len() == rows@.len(),
            Err(error) => plan.steps@.len() < rows@.len() && (row_step(
                rows@[plan.steps@.len() as int],
            ) matches Err(cause) && error == AppError::ParseIntError(cause)),
        },
{
    let mut steps: Vec<Step> = Vec::new();
    let mut i: usize = 0;
    while i < rows.len()
        invariant
            i <= rows.len(),
            steps@.len() == i,
            forall|k: int|
                0 <= k < i ==> row_step(#[trigger] rows@[k]) == Ok::<Step, ParseIntError>(
                    steps@[k],
                ),
            forall|k: int|
                0 <= k < i ==> (#[trigger] steps@[k] matches Step::Store(Some(_)) <==> stores_date(
                    rows@[k],
                )),
        decreases rows.len() - i,
    {
        match plan_row(&rows[i]) {
            Ok(step) => {
                steps.push(step);
            },
            Err(cause) => {
                return Plan { steps, outcome: Err(AppError::from(cause)) };
            },
        }
        i += 1;
    }
    Plan { steps, outcome: Ok(()) }
}

} // verus!
