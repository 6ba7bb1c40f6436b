use vstd::prelude::*;

verus! {

/// The `(year, month, day)` that `jiff` parses from an ISO `YYYY-MM-DD` date, or `None` when it
/// rejects the text.
pub uninterp spec fn jiff_civil_date(text: Seq<char>) -> Option<(i16, i8, i8)>;

/// The nanoseconds since the Unix epoch that `jiff` parses from an RFC 3339 timestamp, or
/// `None` when it rejects the text.
pub uninterp spec fn jiff_timestamp_nanos(text: Seq<char>) -> Option<i128>;

/// The `(mantissa, scale)` that `rust_decimal` parses from a decimal text, or `None` when it
/// rejects the text.
pub uninterp spec fn decimal_from_text(text: Seq<char>) -> Option<(i128, u32)>;

/// Parses a civil date with `jiff::civil::Date`'s `FromStr`.
///
/// The result is named; its parts are what `Date::year`, `Date::month` and `Date::day` return.
#[verifier::external_body]
pub(crate) fn parse_civil_date(text: &str) -> (r: Option<(i16, i8, i8)>)
    ensures
        r == jiff_civil_date(text@),
{
    match text.parse::<jiff::civil::Date>() {
        Ok(date) => Some((date.year(), date.month(), date.day())),
        Err(_) => None,
    }
}

/// Parses a timestamp with `jiff::Timestamp`'s `FromStr`; the result is
/// `Timestamp::as_nanosecond`.
#[verifier::external_body]
pub(crate) fn parse_timestamp(text: &str) -> (r: Option<i128>)
    ensures
        r == jiff_timestamp_nanos(text@),
{
    match text.parse::<jiff::Timestamp>() {
        Ok(timestamp) => Some(timestamp.as_nanosecond()),
        Err(_) => None,
    }
}

/// Parses a decimal with `rust_decimal::Decimal`'s `FromStr`; the result is
/// `(Decimal::mantissa, Decimal::scale)`, a 96-bit mantissa with a scale of at most 28.
#[verifier::external_body]
pub(crate) fn parse_decimal(text: &str) -> (r: Option<(i128, u32)>)
    ensures
        r == decimal_from_text(text@),
        r matches Some(d) ==> -0xffff_ffff_ffff_ffff_ffff_ffff <= d.0 <= 0xffff_ffff_ffff_ffff_ffff_ffff
            && d.1 <= 28,
{
    match text.parse::<rust_decimal::Decimal>() {
        Ok(value) => Some((value.mantissa(), value.scale())),
        Err(_) => None,
    }
}

/// Calendar order of `(year, month, day)` dates.
pub open spec fn date_after(a: (i16, i8, i8), b: (i16, i8, i8)) -> bool {
    a.0 > b.0 || (a.0 == b.0 && (a.1 > b.1 || (a.1 == b.1 && a.2 > b.2)))
}

pub fn is_date_after(a: (i16, i8, i8), b: (i16, i8, i8)) -> (r: bool)
    ensures
        r == date_after(a, b),
{
    a.0 > b.0 || (a.0 == b.0 && (a.1 > b.1 || (a.1 == b.1 && a.2 > b.2)))
}

} // verus!
