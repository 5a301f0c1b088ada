//! The calls that leave this crate. Verus does not look into them: it takes
//! each contract below on trust, and the rest of the crate is proved from
//! them.

use vstd::prelude::*;
use chrono::Timelike;
use std::time::Duration;
use crate::instant::instant_parts;

verus! {

/// Whether `c` is a plus or minus sign.
pub open spec fn is_sign(c: char) -> bool {
    c == '+' || c == '-'
}

/// Whether `tens` and `units` are decimal digits that read 24 or more.
pub open spec fn reads_a_day_or_more(tens: char, units: char) -> bool {
    &&& is_digit(tens)
    &&& is_digit(units)
    &&& (tens >= '3' || (tens == '2' && units >= '4'))
}

/// Whether `text` holds, `back` characters before its end, a sign and two
/// digits of hours that read 24 or more.
pub open spec fn wide_offset_at(text: Seq<char>, back: int) -> bool {
    let at = text.len() - back;
    &&& back >= 3
    &&& at >= 0
    &&& is_sign(text[at])
    &&& reads_a_day_or_more(text[at + 1], text[at + 2])
}

/// Whether `text` ends in a zone offset of a day or more, written as a sign,
/// two digits of hours and two or three more characters. No such zone exists,
/// and the parser is not asked about a text that names one.
pub open spec fn ends_in_wide_offset(text: Seq<char>) -> bool {
    wide_offset_at(text, 5) || wide_offset_at(text, 6)
}

/// Whether `c` is a decimal digit.
pub open spec fn is_digit(c: char) -> bool {
    '0' <= c <= '9'
}

/// Whether `c` is a letter of the English alphabet.
pub open spec fn is_letter(c: char) -> bool {
    ('a' <= c <= 'z') || ('A' <= c <= 'Z')
}

/// Whether `text` begins as the forms that can end in a zone offset begin:
/// with a letter, as a month's name does; with one or two digits and a colon,
/// as a time of day does; or with a digit and a hyphen in the fifth place, as
/// a year and a month do.
pub open spec fn begins_like_zoned(text: Seq<char>) -> bool {
    &&& text.len() > 0
    &&& (is_letter(text[0]) || (is_digit(text[0]) && {
        ||| (text.len() > 1 && text[1] == ':')
        ||| (text.len() > 2 && text[2] == ':')
        ||| (text.len() > 4 && text[4] == '-')
    }))
}

/// Whether `text` may name a zone offset of a day or more: it begins as a
/// form with a zone begins, and ends in such an offset.
pub open spec fn names_wide_offset(text: Seq<char>) -> bool {
    begins_like_zoned(text) && ends_in_wide_offset(text)
}

/// The whole seconds that `std::time::Duration::as_secs` gives for
/// `duration`.
pub uninterp spec fn seconds_held(duration: Duration) -> u64;

/// The text that `pretty_duration::pretty_duration` gives, with no options,
/// for a duration of `millis` milliseconds.
pub uninterp spec fn pretty_text(millis: u64) -> Seq<char>;

/// Calls `chrono::Local::now` and takes the reading apart: the seconds since
/// the Unix epoch (`DateTime::timestamp`), the nanoseconds past the second
/// (`Timelike::nanosecond`), and the reading written in the local time zone
/// as year-month-day hour:minute:second (`DateTime::format`).
///
/// Trusted: the seconds come from a day number of 32 bits and a second of the
/// day, so they stay inside the limit; the nanoseconds stay under two thousand
/// million, the upper half standing for a leap second. Nothing is claimed of
/// the text, which depends on the machine's time zone. `chrono` panics if the
/// system clock stands before 1970: nothing that a caller hands over causes
/// that, and nothing avoids it.
#[verifier::external_body]
pub(crate) fn local_now_parts() -> (parts: (i64, u32, String))
    ensures
        instant_parts(parts.0 as int, parts.1 as int),
{
    let now = chrono::Local::now();
    (now.timestamp(), now.nanosecond(), now.format("%Y-%m-%d %H:%M:%S").to_string())
}

/// Calls `dateparser::parse`, which reads a date in any of the forms it
/// knows, in the local time zone where the text names none, and hands back
/// the seconds and nanoseconds of the instant it found (`DateTime::timestamp`,
/// `Timelike::nanosecond`), or `None` where it found none.
///
/// Trusted: the parts are in range, as for the clock. Which texts are read,
/// and as what, is not claimed: it depends on the time zone and, for a text
/// without a date or without a time, on the day and hour of the call.
/// `dateparser` builds a zone offset with `FixedOffset::east`, which panics
/// from 24 hours upwards. It can reach that only in its forms of a date or a
/// time of day with a zone, which begin with four digits and a hyphen, with
/// one or two digits and a colon, or with a month's name, and only with an
/// offset of a sign, two digits of hours and two of minutes at the very end
/// of the text; `requires` leaves those texts out. For a text without a date
/// or without a time `dateparser` reads the clock, and `chrono` panics if the
/// system clock stands before 1970: no text causes that and none avoids it.
#[verifier::external_body]
pub(crate) fn parse_date_parts(text: &str) -> (parts: Option<(i64, u32)>)
    requires
        !names_wide_offset(text@),
    ensures
        parts matches Some(p) ==> instant_parts(p.0 as int, p.1 as int),
{
    match dateparser::parse(text) {
        Ok(found) => Some((found.timestamp(), found.nanosecond())),
        Err(_) => None,
    }
}

/// Calls `pretty_duration::pretty_duration` with no options on the duration
/// of `millis` milliseconds (`Duration::from_millis`).
///
/// Trusted: the result is a function of the duration alone, here named
/// [`pretty_text`]. The crate divides the milliseconds into years, months,
/// days, hours, minutes, seconds and milliseconds and joins the parts that
/// are not zero; it reads no clock, zone or locale.
#[verifier::external_body]
pub(crate) fn pretty_interval(millis: u64) -> (text: String)
    ensures
        text@ == pretty_text(millis),
{
    pretty_duration::pretty_duration(&Duration::from_millis(millis), None)
}

/// Calls `std::time::Duration::as_secs`, which gives the whole seconds that
/// the duration holds.
///
/// Trusted: the result is a function of the duration alone, here named
/// [`seconds_held`]. Verus knows `Duration` by name only, so the seconds
/// cannot be stated over its parts.
#[verifier::external_body]
pub(crate) fn whole_seconds(duration: &Duration) -> (secs: u64)
    ensures
        secs == seconds_held(*duration),
{
    duration.as_secs()
}

} // verus!
