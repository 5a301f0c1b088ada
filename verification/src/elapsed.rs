//! A length of time in days, hours, minutes and seconds, and how it is worded.

use vstd::prelude::*;
use std::time::Duration;
use crate::outside::{seconds_held, whole_seconds};
use crate::text::{decimal_text, join, joined, padded_text, push_decimal, push_padded};

verus! {

/// A length of time, split into whole days and what is left of a day.
#[derive(Clone, Copy, Debug, PartialEq, Eq, Structural)]
pub struct Elapsed {
    pub days: u64,
    pub hours: u64,
    pub minutes: u64,
    pub seconds: u64,
}

impl Elapsed {
    /// The part smaller than a day is written in the usual way: hours under
    /// 24, minutes and seconds under 60.
    pub open spec fn wf(self) -> bool {
        self.hours < 24 && self.minutes < 60 && self.seconds < 60
    }

    /// The seconds that the four parts add up to.
    pub open spec fn total(self) -> int {
        self.days * 86_400 + self.hours * 3_600 + self.minutes * 60 + self.seconds
    }
}

/// The split of `total` seconds: the whole days, the whole hours of what is
/// left, the whole minutes of what is then left, and the rest.
pub open spec fn elapsed_of(total: u64) -> Elapsed {
    let in_day = total % 86_400;
    let in_hour = in_day % 3_600;
    Elapsed {
        days: total / 86_400,
        hours: in_day / 3_600,
        minutes: in_hour / 60,
        seconds: in_hour % 60,
    }
}

/// Splits `total` seconds into days, hours, minutes and seconds.
pub fn elapsed_from_seconds(total: u64) -> (elapsed: Elapsed)
    ensures
        elapsed == elapsed_of(total),
        elapsed.wf(),
        elapsed.total() == total,
{
    let days = total / 86_400;
    let in_day = total - days * 86_400;
    assert(in_day == total % 86_400);
    let hours = in_day / 3_600;
    let in_hour = in_day - hours * 3_600;
    assert(in_hour == in_day % 3_600);
    let minutes = in_hour / 60;
    let seconds = in_hour - minutes * 60;
    assert(seconds == in_hour % 60);
    Elapsed { days, hours, minutes, seconds }
}

/// Splits the whole seconds of `duration` into days, hours, minutes and
/// seconds. No second is lost and none is counted twice.
pub fn build_elapsed(duration: Duration) -> (elapsed: Elapsed)
    ensures
        elapsed == elapsed_of(seconds_held(duration)),
        elapsed.wf(),
        elapsed.total() == seconds_held(duration),
{
    elapsed_from_seconds(whole_seconds(&duration))
}

/// A count with its unit: "1 day", and from two on "2 days".
pub open spec fn counted_text(count: u64, unit: Seq<char>) -> Seq<char> {
    if count > 1 {
        decimal_text(count as nat) + " "@ + unit + "s"@
    } else {
        "1 "@ + unit
    }
}

/// `items` with the count and unit behind them, where the count is not zero.
pub open spec fn with_counted(items: Seq<Seq<char>>, count: u64, unit: Seq<char>) -> Seq<Seq<char>> {
    if count > 0 {
        items.push(counted_text(count, unit))
    } else {
        items
    }
}

/// The parts of the wording in full: every part that is not zero.
pub open spec fn pretty_items(elapsed: Elapsed) -> Seq<Seq<char>> {
    with_counted(
        with_counted(
            with_counted(with_counted(Seq::empty(), elapsed.days, "day"@), elapsed.hours, "hour"@),
            elapsed.minutes,
            "minute"@,
        ),
        elapsed.seconds,
        "second"@,
    )
}

/// The wording in full, such as "up 1 day, 2 hours, 5 seconds".
pub open spec fn full_wording(elapsed: Elapsed) -> Seq<char> {
    "up "@ + joined(pretty_items(elapsed), ", "@)
}

/// The time of day of the short wording: hours, minutes and seconds, each
/// with two digits at least.
pub open spec fn clock_text(elapsed: Elapsed) -> Seq<char> {
    padded_text(elapsed.hours as nat) + ":"@ + padded_text(elapsed.minutes as nat) + ":"@
        + padded_text(elapsed.seconds as nat)
}

/// The parts of the short wording: the days, if any, and the time of day.
pub open spec fn plain_items(elapsed: Elapsed) -> Seq<Seq<char>> {
    with_counted(Seq::empty(), elapsed.days, "day"@).push(clock_text(elapsed))
}

/// The short wording, such as "up 1 day, 02:00:05".
pub open spec fn short_wording(elapsed: Elapsed) -> Seq<char> {
    "up "@ + joined(plain_items(elapsed), ", "@)
}

fn counted(count: u64, unit: &str) -> (text: String)
    ensures
        text@ == counted_text(count, unit@),
{
    let mut text = String::new();
    if count > 1 {
        push_decimal(&mut text, count);
        text.append(" ");
        text.append(unit);
        text.append("s");
    } else {
        text.append("1 ");
        text.append(unit);
    }
    assert(text@ =~= counted_text(count, unit@));
    text
}

fn push_counted(items: &mut Vec<String>, count: u64, unit: &str)
    ensures
        final(items).deep_view() == with_counted(old(items).deep_view(), count, unit@),
{
    if count > 0 {
        let text = counted(count, unit);
        items.push(text);
        assert(final(items).deep_view() =~= old(items).deep_view().push(text@));
    }
}

impl Elapsed {
    /// Words the length of time in full, leaving out the parts that are zero.
    pub fn pretty(&self) -> (text: String)
        ensures
            text@ == full_wording(*self),
    {
        let mut items: Vec<String> = Vec::new();
        assert(items.deep_view() =~= Seq::<Seq<char>>::empty());
        push_counted(&mut items, self.days, "day");
        push_counted(&mut items, self.hours, "hour");
        push_counted(&mut items, self.minutes, "minute");
        push_counted(&mut items, self.seconds, "second");
        let mut text = String::from_str("up ");
        let body = join(&items, ", ");
        text.append(body.as_str());
        text
    }

    /// Words the length of time as the days, if any, and a time of day.
    pub fn plain(&self) -> (text: String)
        ensures
            text@ == short_wording(*self),
    {
        let mut items: Vec<String> = Vec::new();
        assert(items.deep_view() =~= Seq::<Seq<char>>::empty());
        push_counted(&mut items, self.days, "day");
        let mut clock = String::new();
        push_padded(&mut clock, self.hours);
        clock.append(":");
        push_padded(&mut clock, self.minutes);
        clock.append(":");
        push_padded(&mut clock, self.seconds);
        assert(clock@ =~= clock_text(*self));
        let ghost before = items.deep_view();
        items.push(clock);
        assert(items.deep_view() =~= before.push(clock_text(*self)));
        let mut text = String::from_str("up ");
        let body = join(&items, ", ");
        text.append(body.as_str());
        text
    }
}

} // verus!
