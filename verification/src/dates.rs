//! Instants as text: reading the date of an entry and writing dates into a
//! document. The calendar is chrono's; this module states what the library
//! relies on and nothing of how a date is laid out.

use vstd::prelude::*;
use crate::error::RacerError;
use crate::time::{instant_in_range, is_instant};

verus! {

/// `chrono::ParseError`, what chrono reports of a text that is no date.
/// Nothing is read of it; it is mapped to `MalformedTimestamp`.
#[verifier::external_type_specification]
#[verifier::external_body]
pub struct ExParseError(chrono::ParseError);

/// The instant that a date in the RFC 2822 form stands for, in seconds since
/// 1970-01-01 00:00:00 UTC, or `None` where the text is no such date.
pub uninterp spec fn rfc2822_instant(text: Seq<char>) -> Option<i64>;

/// An instant in the RFC 2822 form, in UTC.
pub uninterp spec fn rfc2822_text(instant: i64) -> Seq<char>;

/// The day of an instant, in UTC, as day of the month, short month name and
/// year.
pub uninterp spec fn day_text(instant: i64) -> Seq<char>;

/// An instant, in UTC, as a listener reads it: weekday, day, month, year and
/// the time on a twelve-hour clock.
pub uninterp spec fn release_text(instant: i64) -> Seq<char>;

/// Calls `chrono::DateTime::parse_from_rfc2822` and, on success,
/// `DateTime::timestamp` on what it returned. Trusted: the outcome is a
/// function of the text alone, which `rfc2822_instant` names; a failure is
/// handed on as chrono reports it.
#[verifier::external_body]
fn parse_rfc2822(text: &str) -> (r: Result<i64, chrono::ParseError>)
    ensures
        r.is_ok() == rfc2822_instant(text@).is_some(),
        r.is_ok() ==> rfc2822_instant(text@) == Some(r.unwrap()),
{
    match chrono::DateTime::parse_from_rfc2822(text) {
        Ok(date) => Ok(date.timestamp()),
        Err(e) => Err(e),
    }
}

/// Calls `chrono::DateTime::from_timestamp` and `DateTime::to_rfc2822` on the
/// result. Trusted: the text is a function of the instant alone, which
/// `rfc2822_text` names. The instants admitted have a year of four digits,
/// for which chrono writes the form without failing.
#[verifier::external_body]
pub(crate) fn format_rfc2822(instant: i64) -> (r: String)
    requires
        is_instant(instant as int),
    ensures
        r@ == rfc2822_text(instant),
{
    chrono::DateTime::from_timestamp(instant, 0).unwrap_or_default().to_rfc2822()
}

/// Calls `chrono::DateTime::from_timestamp` and `DateTime::format` with the
/// pattern `%d %b %Y`. Trusted: the text is a function of the instant alone,
/// which `day_text` names.
#[verifier::external_body]
pub(crate) fn format_day(instant: i64) -> (r: String)
    requires
        is_instant(instant as int),
    ensures
        r@ == day_text(instant),
{
    chrono::DateTime::from_timestamp(instant, 0).unwrap_or_default().format("%d %b %Y").to_string()
}

/// Calls `chrono::DateTime::from_timestamp` and `DateTime::format` with the
/// pattern `%a, %d %b %Y at %I:%M%P`. Trusted: the text is a function of the
/// instant alone, which `release_text` names.
#[verifier::external_body]
pub(crate) fn format_release(instant: i64) -> (r: String)
    requires
        is_instant(instant as int),
    ensures
        r@ == release_text(instant),
{
    chrono::DateTime::from_timestamp(instant, 0)
        .unwrap_or_default()
        .format("%a, %d %b %Y at %I:%M%P")
        .to_string()
}

/// What `parse_instant` makes of the outcome of reading a date.
pub open spec fn checked_instant(parsed: Option<i64>) -> Result<i64, RacerError> {
    match parsed {
        None => Err(RacerError::MalformedTimestamp),
        Some(t) => if is_instant(t as int) {
            Ok(t)
        } else {
            Err(RacerError::OutOfRange)
        },
    }
}

/// Checks an instant that was read from a date: `MalformedTimestamp` where
/// nothing was read, `OutOfRange` where the instant is outside the range the
/// library works on.
pub fn check_instant(parsed: Option<i64>) -> (r: Result<i64, RacerError>)
    ensures
        r == checked_instant(parsed),
{
    match parsed {
        None => Err(RacerError::MalformedTimestamp),
        Some(t) => if instant_in_range(t) {
            Ok(t)
        } else {
            Err(RacerError::OutOfRange)
        },
    }
}

/// Reads a date in the RFC 2822 form.
pub fn parse_instant(text: &str) -> (r: Result<i64, RacerError>)
    ensures
        r == checked_instant(rfc2822_instant(text@)),
{
    match parse_rfc2822(text) {
        Ok(t) => check_instant(Some(t)),
        Err(_) => check_instant(None),
    }
}

/// An instant as a text: the RFC 2822 form where the library works on it.
pub open spec fn instant_text(instant: i64) -> Seq<char> {
    if is_instant(instant as int) {
        rfc2822_text(instant)
    } else {
        "out of range"@
    }
}

/// An instant as a text.
pub fn make_instant_text(instant: i64) -> (r: String)
    ensures
        r@ == instant_text(instant),
{
    if instant_in_range(instant) {
        format_rfc2822(instant)
    } else {
        String::from_str("out of range")
    }
}

} // verus!
