//! Times of day, to the minute: arithmetic, display, and the night window.

use crate::solar::year_length;
use crate::text::{decimal, decimal_text, string_views, two_digit_text, two_digits};
use vstd::prelude::*;

verus! {

/// Schedule times are minutes since local midnight, so the valid range is
/// everything below this.
pub const MINUTES_PER_DAY: u32 = 1440;

// ---------------------------------------------------------------------------
// Hours and minutes
// ---------------------------------------------------------------------------
/// `hour` and `minute` as minutes since midnight, each brought into its own
/// range first.
pub open spec fn minutes_of(hour: int, minute: int) -> int {
    let h = if hour > 23 {
        23
    } else {
        hour
    };
    let m = if minute > 59 {
        59
    } else {
        minute
    };
    h * 60 + m
}

/// Splits minutes since midnight into `(hour, minute)` on a 24-hour clock.
pub fn split_time(minutes: u32) -> (time: (u32, u32))
    ensures
        time.0 == minutes as int % MINUTES_PER_DAY as int / 60,
        time.1 == minutes as int % 60,
        time.0 < 24,
        time.1 < 60,
{
    let minutes = minutes % MINUTES_PER_DAY;
    (minutes / 60, minutes % 60)
}

/// Combines a 24-hour `hour` and `minute` back into minutes since midnight.
pub fn compose_time(hour: u32, minute: u32) -> (minutes: u32)
    ensures
        minutes == minutes_of(hour as int, minute as int),
        minutes < MINUTES_PER_DAY,
{
    let hour = if hour > 23 {
        23
    } else {
        hour
    };
    let minute = if minute > 59 {
        59
    } else {
        minute
    };
    (hour * 60 + minute) % MINUTES_PER_DAY
}

/// **Law.** Splitting a time of day and putting it back together changes
/// nothing.
pub proof fn split_and_compose_round_trip(minutes: int)
    requires
        0 <= minutes < MINUTES_PER_DAY,
    ensures
        minutes_of(minutes % MINUTES_PER_DAY as int / 60, minutes % 60) == minutes,
{
}

/// **Law.** A time put together from an hour and a minute splits back into
/// them.
pub proof fn compose_and_split_round_trip(hour: int, minute: int)
    requires
        0 <= hour < 24,
        0 <= minute < 60,
    ensures
        minutes_of(hour, minute) % MINUTES_PER_DAY as int / 60 == hour,
        minutes_of(hour, minute) % 60 == minute,
{
}

/// Combines a 12-hour clock position (`0` reads as "12") and AM/PM into a
/// 24-hour hour.
pub open spec fn hour24(index: int, pm: bool) -> int {
    index % 12 + if pm {
        12int
    } else {
        0
    }
}

/// Combines a 12-hour clock position (`0` reads as "12") and AM/PM into a
/// 24-hour hour.
pub fn to_hour24(index: u32, pm: bool) -> (hour: u32)
    ensures
        hour == hour24(index as int, pm),
        hour < 24,
{
    index % 12 + if pm {
        12
    } else {
        0
    }
}

/// **Law.** Every hour survives being shown on a 12-hour clock and read back.
pub proof fn twelve_hour_positions_round_trip(hour: int)
    requires
        0 <= hour < 24,
    ensures
        hour24(hour % 12, hour >= 12) == hour,
{
}

// ---------------------------------------------------------------------------
// Now
// ---------------------------------------------------------------------------
/// A reading of the local clock and calendar.
#[derive(Clone, Copy, Debug, PartialEq, Eq, Structural)]
pub struct LocalNow {
    pub year: i32,
    /// The day of the year, from 1.
    pub ordinal: u32,
    pub hour: u32,
    pub minute: u32,
}

/// Reads the local clock through `chrono::Local::now`, and takes the year, the
/// day of the year, the hour and the minute off what it returns.
///
/// What comes back depends on the moment and on the machine's time zone. Of
/// every reading it is claimed only that the day is one its year has, and that
/// the hour and the minute are within the ranges chrono documents for them. A
/// system clock set before the Unix epoch, or past the last year there is, is
/// not provided for: chrono has no reading for it.
#[verifier::external_body]
pub(crate) fn local_now() -> (now: LocalNow)
    ensures
        1 <= now.ordinal <= year_length(now.year as int),
        now.hour < 24,
        now.minute < 60,
{
    let now = chrono::Local::now();
    LocalNow {
        year: chrono::Datelike::year(&now),
        ordinal: chrono::Datelike::ordinal(&now),
        hour: chrono::Timelike::hour(&now),
        minute: chrono::Timelike::minute(&now),
    }
}

/// Whether the local clock, when it was read, gave this reading.
pub open(crate) spec fn is_reading(now: LocalNow) -> bool {
    call_ensures(local_now, (), now)
}

/// A reading of the clock as minutes since midnight.
pub fn minute_of_day(now: LocalNow) -> (minutes: u32)
    requires
        now.hour < 24,
        now.minute < 60,
    ensures
        minutes == minutes_of(now.hour as int, now.minute as int),
        minutes < MINUTES_PER_DAY,
{
    now.hour * 60 + now.minute
}

/// The current local time as minutes since midnight: that of a reading of the
/// local clock.
pub fn now_minute_of_day() -> (minutes: u32)
    ensures
        minutes < MINUTES_PER_DAY,
        exists|now: LocalNow| #[trigger]
            is_reading(now) && minutes == minutes_of(now.hour as int, now.minute as int),
{
    let now = local_now();
    assert(is_reading(now));
    minute_of_day(now)
}

// ---------------------------------------------------------------------------
// The night window
// ---------------------------------------------------------------------------
/// Whether `minute` is in the window that opens at `sunset` and closes at
/// `sunrise`. The window wraps past midnight only when it closes earlier in the
/// day than it opens; equal ends cover the whole day.
pub open spec fn is_night(minute: int, sunrise: int, sunset: int) -> bool {
    if sunset < sunrise {
        sunset <= minute < sunrise
    } else if sunset > sunrise {
        minute >= sunset || minute < sunrise
    } else {
        true
    }
}

/// Whether `minute_of_day` falls within the night window
/// `[sunset_minutes, sunrise_minutes)`; see [`is_night`].
pub fn is_night_at(minute_of_day: u32, sunrise_minutes: u32, sunset_minutes: u32) -> (night: bool)
    ensures
        night == is_night(minute_of_day as int, sunrise_minutes as int, sunset_minutes as int),
{
    if sunset_minutes < sunrise_minutes {
        sunset_minutes <= minute_of_day && minute_of_day < sunrise_minutes
    } else if sunset_minutes > sunrise_minutes {
        minute_of_day >= sunset_minutes || minute_of_day < sunrise_minutes
    } else {
        true
    }
}

/// **Law.** Going round the clock from sunset, it is night for exactly as many
/// minutes as lie between sunset and sunrise.
pub proof fn night_lasts_from_sunset_to_sunrise(minute: int, sunrise: int, sunset: int)
    requires
        0 <= minute < MINUTES_PER_DAY,
        0 <= sunrise < MINUTES_PER_DAY,
        0 <= sunset < MINUTES_PER_DAY,
        sunrise != sunset,
    ensures
        is_night(minute, sunrise, sunset) <==> (minute - sunset) % (MINUTES_PER_DAY as int) < (
        sunrise - sunset) % (MINUTES_PER_DAY as int),
{
}

/// **Law.** A window and the one with its ends swapped split the day between
/// them.
pub proof fn day_and_night_split_the_day(minute: int, sunrise: int, sunset: int)
    requires
        sunrise != sunset,
    ensures
        is_night(minute, sunrise, sunset) != is_night(minute, sunset, sunrise),
{
}

// ---------------------------------------------------------------------------
// Display
// ---------------------------------------------------------------------------
/// How an hour reads on a 12-hour clock, without its AM or PM.
pub open spec fn twelve_hour(hour: int) -> int {
    if hour % 12 == 0 {
        12
    } else {
        hour % 12
    }
}

/// How a time of day is displayed.
pub open spec fn time_text(minutes: int, military: bool) -> Seq<char> {
    let hour = minutes % MINUTES_PER_DAY as int / 60;
    let minute = minutes % 60;
    if military {
        two_digits(hour as nat) + ":"@ + two_digits(minute as nat)
    } else {
        decimal(twelve_hour(hour) as nat) + ":"@ + two_digits(minute as nat) + (if hour < 12 {
            "AM"@
        } else {
            "PM"@
        })
    }
}

/// Formats minutes since midnight on a 24-hour or a 12-hour clock, e.g.
/// `"21:45"` or `"9:45PM"`.
pub fn format_time(minutes: u32, military: bool) -> (text: String)
    ensures
        text@ == time_text(minutes as int, military),
{
    let (hour, minute) = split_time(minutes);
    let minute_text = two_digit_text(minute as u64);
    if military {
        two_digit_text(hour as u64).concat(":").concat(minute_text.as_str())
    } else {
        let twelve = if hour % 12 == 0 {
            12
        } else {
            hour % 12
        };
        let meridiem = if hour < 12 {
            "AM"
        } else {
            "PM"
        };
        decimal_text(twelve as u64).concat(":").concat(minute_text.as_str()).concat(meridiem)
    }
}

/// How the hour at position `index` of a picker reads.
pub open spec fn hour_label(index: int, military: bool) -> Seq<char> {
    if military {
        two_digits(index as nat)
    } else {
        decimal(twelve_hour(index) as nat)
    }
}

/// Labels for an hour picker: `00` to `23` on a 24-hour clock, or the 12-hour
/// positions `12, 1, ..., 11`.
pub fn hour_labels(military: bool) -> (labels: Vec<String>)
    ensures
        string_views(labels@) == Seq::new(
            if military {
                24
            } else {
                12
            },
            |i: int| hour_label(i, military),
        ),
{
    let count: u64 = if military {
        24
    } else {
        12
    };
    let mut labels: Vec<String> = Vec::new();
    for index in 0..count
        invariant
            count == if military {
                24int
            } else {
                12
            },
            labels.len() == index,
            forall|i: int| 0 <= i < index ==> (#[trigger] labels@[i])@ == hour_label(i, military),
    {
        let label = if military {
            two_digit_text(index)
        } else if index == 0 {
            decimal_text(12)
        } else {
            decimal_text(index)
        };
        labels.push(label);
    }
    assert(string_views(labels@) =~= Seq::new(
        if military {
            24
        } else {
            12
        },
        |i: int| hour_label(i, military),
    ));
    labels
}

/// Labels for a minute picker: `00` to `59`.
pub fn minute_labels() -> (labels: Vec<String>)
    ensures
        string_views(labels@) == Seq::new(60, |i: int| two_digits(i as nat)),
{
    let mut labels: Vec<String> = Vec::new();
    for minute in 0..60u64
        invariant
            labels.len() == minute,
            forall|i: int| 0 <= i < minute ==> (#[trigger] labels@[i])@ == two_digits(i as nat),
    {
        labels.push(two_digit_text(minute));
    }
    assert(string_views(labels@) =~= Seq::new(60, |i: int| two_digits(i as nat)));
    labels
}

} // verus!
