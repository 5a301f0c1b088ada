//! The time resolver: from an optional date in free form to an instant.

use vstd::prelude::*;
use crate::instant::{instant_parts, ResolvedInstant};
use crate::outside::{
    begins_like_zoned, ends_in_wide_offset, local_now_parts, names_wide_offset, parse_date_parts,
    wide_offset_at,
};

verus! {

fn wide_offset_back(text: &str, len: usize, back: usize) -> (wide: bool)
    requires
        len == text@.len(),
        3 <= back <= 6,
    ensures
        wide == wide_offset_at(text@, back as int),
{
    if len < back {
        return false;
    }
    let at = len - back;
    let sign = text.get_char(at);
    let tens = text.get_char(at + 1);
    let units = text.get_char(at + 2);
    (sign == '+' || sign == '-') && '0' <= tens && tens <= '9' && '0' <= units && units <= '9' && (
    tens >= '3' || (tens == '2' && units >= '4'))
}

/// Tells whether `text` ends in a zone offset of a day or more.
pub fn has_wide_offset(text: &str) -> (wide: bool)
    ensures
        wide == ends_in_wide_offset(text@),
{
    let len = text.unicode_len();
    wide_offset_back(text, len, 5) || wide_offset_back(text, len, 6)
}

/// Tells whether `text` begins as the forms that can end in a zone offset
/// begin.
pub fn has_zoned_beginning(text: &str) -> (zoned: bool)
    ensures
        zoned == begins_like_zoned(text@),
{
    let len = text.unicode_len();
    if len == 0 {
        return false;
    }
    let first = text.get_char(0);
    if ('a' <= first && first <= 'z') || ('A' <= first && first <= 'Z') {
        return true;
    }
    if !('0' <= first && first <= '9') {
        return false;
    }
    (len > 1 && text.get_char(1) == ':') || (len > 2 && text.get_char(2) == ':') || (len > 4
        && text.get_char(4) == '-')
}

/// Tells whether `text` may name a zone offset of a day or more.
pub fn names_a_wide_offset(text: &str) -> (wide: bool)
    ensures
        wide == names_wide_offset(text@),
{
    has_zoned_beginning(text) && has_wide_offset(text)
}

/// How an explicit date was resolved. The two cases lead to the same
/// behaviour for the user, and can still be told apart.
#[derive(Clone, Copy, Debug, PartialEq, Eq, Structural)]
pub enum Resolution {
    /// The text was read as this instant.
    Parsed(ResolvedInstant),
    /// The text was not read as a date: the current time stands in for it.
    FallbackToNow,
}

/// The parts that the parser found, where it found parts that are in range.
pub open spec fn parts_in_range(parts: Option<(i64, u32)>) -> Option<(i64, u32)> {
    match parts {
        Some(p) if instant_parts(p.0 as int, p.1 as int) => Some(p),
        _ => None,
    }
}

/// Turns the parser's answer into a resolution: an instant where the parser
/// found one whose parts are in range, else the fallback.
pub fn classify(parts: Option<(i64, u32)>) -> (resolution: Resolution)
    ensures
        match parts_in_range(parts) {
            Some(p) => resolution matches Resolution::Parsed(t) && t.wf() && t.spec_secs() == p.0
                && t.spec_nanos() == p.1,
            None => resolution == Resolution::FallbackToNow,
        },
{
    match parts {
        Some(p) => match ResolvedInstant::new(p.0, p.1) {
            Some(instant) => Resolution::Parsed(instant),
            None => Resolution::FallbackToNow,
        },
        None => Resolution::FallbackToNow,
    }
}

/// Reads an explicit date. A text that is no date in any form the parser
/// knows is no error: it resolves to the fallback. So does a text that may
/// name a zone offset of a day or more, which the parser is not asked about.
pub fn resolve_date(text: &str) -> (resolution: Resolution)
    ensures
        names_wide_offset(text@) ==> resolution == Resolution::FallbackToNow,
        resolution matches Resolution::Parsed(t) ==> t.wf(),
{
    if names_a_wide_offset(text) {
        Resolution::FallbackToNow
    } else {
        classify(parse_date_parts(text))
    }
}

/// The instant that a resolution stands for at the time `now`.
pub open spec fn settled_instant(resolution: Resolution, now: ResolvedInstant) -> ResolvedInstant {
    match resolution {
        Resolution::Parsed(instant) => instant,
        Resolution::FallbackToNow => now,
    }
}

/// The instant that a resolution stands for at the time `now`.
pub fn settle_instant(resolution: Resolution, now: ResolvedInstant) -> (instant: ResolvedInstant)
    ensures
        instant == settled_instant(resolution, now),
{
    match resolution {
        Resolution::Parsed(instant) => instant,
        Resolution::FallbackToNow => now,
    }
}

/// The time resolver: the instant that an optional date in free form stands
/// for. Without a date it is the current time. With one it is the instant
/// that the parser read, or the current time where the parser read none.
pub fn resolve_time(explicit: Option<&str>) -> (instant: ResolvedInstant)
    ensures
        instant.wf(),
{
    let resolution = match explicit {
        Some(text) => resolve_date(text),
        None => Resolution::FallbackToNow,
    };
    let instant = match resolution {
        Resolution::Parsed(instant) => instant,
        Resolution::FallbackToNow => WallClock::now().instant(),
    };
    proof {
        use_type_invariant(&instant);
    }
    instant
}

/// A reading of the wall clock: the instant, and the same instant written in
/// the local time zone, which marks the log lines of a pass.
#[derive(Debug)]
pub struct WallClock {
    instant: ResolvedInstant,
    label: String,
}

impl WallClock {
    /// Reads the clock.
    pub fn now() -> (clock: WallClock)
        ensures
            clock.spec_instant().wf(),
    {
        let parts = local_now_parts();
        let instant = ResolvedInstant::new(parts.0, parts.1).unwrap();
        WallClock { instant, label: parts.2 }
    }

    /// The instant of the reading.
    pub closed spec fn spec_instant(&self) -> ResolvedInstant {
        self.instant
    }

    /// The text of the reading.
    pub closed spec fn spec_label(&self) -> Seq<char> {
        self.label@
    }

    /// The instant of the reading.
    pub fn instant(&self) -> (instant: ResolvedInstant)
        ensures
            instant == self.spec_instant(),
    {
        self.instant
    }

    /// The reading written in the local time zone.
    pub fn label(&self) -> (label: &str)
        ensures
            label@ == self.spec_label(),
    {
        self.label.as_str()
    }
}

} // verus!
