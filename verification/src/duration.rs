//! Spans of time in a few characters.

use vstd::prelude::*;
use vstd::string::StringExecFns;
use crate::text::decimal;
use crate::text::number::push_decimal;

verus! {

/// The seconds of a year of 365.25 days.
pub const SECONDS_PER_YEAR: u64 = 31_557_600;

/// The seconds of a month of 30.44 days.
pub const SECONDS_PER_MONTH: u64 = 2_630_016;

/// The seconds of a day.
pub const SECONDS_PER_DAY: u64 = 86_400;

/// A span of time taken apart into units, each with what the greater units leave over.
pub struct Units {
    pub years: nat,
    pub months: nat,
    pub days: nat,
    pub hours: nat,
    pub minutes: nat,
    pub seconds: nat,
    pub millis: nat,
    pub micros: nat,
    pub nanos: nat,
}

/// The units of a span of `secs` whole seconds and `nanos` nanoseconds. The milliseconds,
/// the microseconds and the nanoseconds each count the whole part below one second.
pub open spec fn units_of(secs: u64, nanos: u32) -> Units {
    let year_rest = secs % SECONDS_PER_YEAR;
    let month_rest = year_rest % SECONDS_PER_MONTH;
    let day_rest = month_rest % SECONDS_PER_DAY;
    Units {
        years: (secs / SECONDS_PER_YEAR) as nat,
        months: (year_rest / SECONDS_PER_MONTH) as nat,
        days: (month_rest / SECONDS_PER_DAY) as nat,
        hours: (day_rest / 3600) as nat,
        minutes: (day_rest % 3600 / 60) as nat,
        seconds: (day_rest % 60) as nat,
        millis: (nanos / 1_000_000) as nat,
        micros: (nanos / 1_000) as nat,
        nanos: nanos as nat,
    }
}

/// The greatest unit of which the span has at least one, with its count; the seconds with
/// a count of zero for the empty span.
pub open spec fn leading_unit(u: Units) -> (Seq<char>, nat) {
    if u.years > 0 {
        ("y"@, u.years)
    } else if u.months > 0 {
        ("mo"@, u.months)
    } else if u.days > 0 {
        ("d"@, u.days)
    } else if u.hours > 0 {
        ("h"@, u.hours)
    } else if u.minutes > 0 {
        ("m"@, u.minutes)
    } else if u.seconds > 0 {
        ("s"@, u.seconds)
    } else if u.millis > 0 {
        ("ms"@, u.millis)
    } else if u.micros > 0 {
        ("us"@, u.micros)
    } else if u.nanos > 0 {
        ("ns"@, u.nanos)
    } else {
        ("s"@, 0)
    }
}

/// The span as text: the count of its leading unit, then the unit.
pub open spec fn duration_text(secs: u64, nanos: u32) -> Seq<char> {
    let (unit, count) = leading_unit(units_of(secs, nanos));
    decimal(count) + unit
}

/// Formats a span of `secs` whole seconds and `nanos` nanoseconds by its most significant
/// unit alone: 125 seconds give `2m`, 5 seconds `5s`, half a second `500ms`, nothing `0s`.
pub fn format_duration(secs: u64, nanos: u32) -> (text: String)
    ensures
        text@ == duration_text(secs, nanos),
{
    let year_rest = secs % SECONDS_PER_YEAR;
    let month_rest = year_rest % SECONDS_PER_MONTH;
    let day_rest = month_rest % SECONDS_PER_DAY;
    let years = secs / SECONDS_PER_YEAR;
    let months = year_rest / SECONDS_PER_MONTH;
    let days = month_rest / SECONDS_PER_DAY;
    let hours = day_rest / 3600;
    let minutes = day_rest % 3600 / 60;
    let seconds = day_rest % 60;
    let millis: u64 = (nanos / 1_000_000) as u64;
    let micros: u64 = (nanos / 1_000) as u64;
    let (unit, count): (&str, u64) = if years > 0 {
        ("y", years)
    } else if months > 0 {
        ("mo", months)
    } else if days > 0 {
        ("d", days)
    } else if hours > 0 {
        ("h", hours)
    } else if minutes > 0 {
        ("m", minutes)
    } else if seconds > 0 {
        ("s", seconds)
    } else if millis > 0 {
        ("ms", millis)
    } else if micros > 0 {
        ("us", micros)
    } else if nanos > 0 {
        ("ns", nanos as u64)
    } else {
        ("s", 0)
    };
    let mut text = String::new();
    push_decimal(&mut text, count);
    text.append(unit);
    assert(text@ =~= duration_text(secs, nanos));
    text
}

} // verus!
