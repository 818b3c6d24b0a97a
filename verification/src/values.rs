//! Calendar dates and exact decimal numbers as plain values, and the
//! parsers that turn CSV fields into them.

use vstd::prelude::*;

verus! {

/// A calendar date (proleptic Gregorian), as chrono's `NaiveDate` holds it.
#[derive(Clone, Copy, Debug, PartialEq, Eq, Structural)]
pub struct Date {
    pub year: i32,
    pub month: u32,
    pub day: u32,
}

/// An exact decimal number `mantissa * 10^(-scale)`, as rust_decimal's
/// `Decimal` holds it.
#[derive(Clone, Copy, Debug, PartialEq, Eq, Structural)]
pub struct Decimal {
    pub mantissa: i128,
    pub scale: u32,
}

/// What `<chrono::NaiveDate as FromStr>::from_str` returns for a string:
/// the year, month and day of the date it reads, or `None` where it fails.
pub uninterp spec fn naive_date_from_str(s: Seq<char>) -> Option<(i32, u32, u32)>;

/// What the csv crate's serde deserializer makes of a single field
/// deserialized as a `rust_decimal::Decimal`: the mantissa and scale of the
/// number, or `None` where it fails. (csv guesses the field's type first:
/// integers reach rust_decimal as integers, other numbers as `f64`, the rest
/// as text.)
pub uninterp spec fn csv_decimal_field(s: Seq<char>) -> Option<(i128, u32)>;

/// The largest magnitude a rust_decimal mantissa can have, plus one (2^96).
pub open spec fn decimal_mantissa_bound() -> int {
    79228162514264337593543950336
}

pub open spec fn date_of(p: (i32, u32, u32)) -> Date {
    Date { year: p.0, month: p.1, day: p.2 }
}

pub open spec fn decimal_of(p: (i128, u32)) -> Decimal {
    Decimal { mantissa: p.0, scale: p.1 }
}

pub open spec fn date_option(o: Option<(i32, u32, u32)>) -> Option<Date> {
    match o {
        Some(p) => Some(date_of(p)),
        None => None,
    }
}

pub open spec fn decimal_option(o: Option<(i128, u32)>) -> Option<Decimal> {
    match o {
        Some(p) => Some(decimal_of(p)),
        None => None,
    }
}

/// Calls `chrono::NaiveDate::from_str` (the `%Y-%m-%d` form) and hands back
/// the year, month and day of the result. The contract names the result and
/// states what chrono documents of every `NaiveDate`: the month lies in
/// 1..=12 and the day in 1..=31. Which strings chrono accepts is not stated.
#[verifier::external_body]
fn chrono_parse_date(s: &str) -> (res: Option<Date>)
    ensures
        res == date_option(naive_date_from_str(s@)),
        res matches Some(d) ==> 1 <= d.month <= 12 && 1 <= d.day <= 31,
{
    match s.parse::<chrono::NaiveDate>() {
        Ok(d) => Some(
            Date {
                year: chrono::Datelike::year(&d),
                month: chrono::Datelike::month(&d),
                day: chrono::Datelike::day(&d),
            },
        ),
        Err(_) => None,
    }
}

/// Deserializes the one-field CSV record `s` as a `rust_decimal::Decimal`
/// through `csv::StringRecord::deserialize` (csv's serde deserializer and
/// rust_decimal's `Deserialize`), the path a `Decimal` field of a CSV row
/// takes, and hands back the mantissa and scale of the result. The contract
/// names the result and states what rust_decimal documents of every
/// `Decimal`: the scale is at most 28 and the mantissa fits in 96 bits. Which
/// texts are accepted, and how many digits survive, is not stated.
#[verifier::external_body]
fn csv_deserialize_decimal(s: &str) -> (res: Option<Decimal>)
    ensures
        res == decimal_option(csv_decimal_field(s@)),
        res matches Some(d) ==> d.scale <= 28 && -decimal_mantissa_bound() < d.mantissa
            < decimal_mantissa_bound(),
{
    let record = csv::StringRecord::from(vec![s]);
    match record.deserialize::<rust_decimal::Decimal>(None) {
        Ok(d) => Some(Decimal { mantissa: d.mantissa(), scale: d.scale() }),
        Err(_) => None,
    }
}

/// The date a CSV field denotes: chrono's reading of the text.
pub open spec fn spec_parse_date(s: Seq<char>) -> Option<Date> {
    date_option(naive_date_from_str(s))
}

/// The number a CSV field denotes: what csv's deserializer and
/// rust_decimal make of the text.
pub open spec fn spec_parse_decimal(s: Seq<char>) -> Option<Decimal> {
    decimal_option(csv_decimal_field(s))
}

/// Reads a date field (`2026-08-15`).
pub fn parse_date(s: &str) -> (res: Option<Date>)
    ensures
        res == spec_parse_date(s@),
{
    chrono_parse_date(s)
}

/// Reads a decimal field (`1234.567`), as a CSV row deserializer does.
pub fn parse_decimal(s: &str) -> (res: Option<Decimal>)
    ensures
        res == spec_parse_decimal(s@),
        res matches Some(d) ==> d.scale <= 28 && -decimal_mantissa_bound() < d.mantissa
            < decimal_mantissa_bound(),
{
    csv_deserialize_decimal(s)
}

} // verus!
