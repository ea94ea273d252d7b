//! Where the machine is, and when the sun rises and sets there.
//!
//! The location comes from the configured time zone: its name is looked up in
//! the tz database's zone tables, which give a coordinate for each zone. A time
//! zone locates the machine to a few hundred kilometers, which moves sunset by
//! minutes.

use crate::clock::{is_reading, local_now, minutes_of, LocalNow, MINUTES_PER_DAY};
use crate::scan::{after_first, fields, fields_of, lines, lines_of, text_after};
use crate::text::{
    all_digits, chars_of, decimal_value, digit_value, is_digit, optional_view, same_text, trim,
    trimmed, views,
};
use vstd::prelude::*;

verus! {

/// Where the tz database keeps its zone tables, in the order they are tried.
/// The second still carries the older names a long-lived install can be set to.
pub const ZONE_TABLES: [&'static str; 2] = [
    "/usr/share/zoneinfo/zone1970.tab",
    "/usr/share/zoneinfo/zone.tab",
];

/// An angle as the zone tables write one.
#[derive(Clone, Copy, Debug, PartialEq, Eq, Structural)]
pub struct Angle {
    /// Whether it is south or west rather than north or east.
    pub negative: bool,
    pub degrees: u32,
    pub minutes: u32,
    pub seconds: u32,
}

/// A position on the globe: latitude north-positive, longitude east-positive.
#[derive(Clone, Copy, Debug, PartialEq, Eq, Structural)]
pub struct Coordinates {
    pub latitude: Angle,
    pub longitude: Angle,
}

/// Sunrise and sunset as minutes since local midnight.
#[derive(Clone, Copy, Debug, PartialEq, Eq, Structural)]
pub struct SunTimes {
    pub sunrise_minutes: u32,
    pub sunset_minutes: u32,
}

// ---------------------------------------------------------------------------
// Zone tables
// ---------------------------------------------------------------------------
/// The angle a `±DD[D]MM[SS]` text spells, with `width` digits of degrees.
/// Seconds are optional, and digits after them say nothing.
pub open spec fn angle_in(text: Seq<char>, width: int) -> Option<Angle> {
    let digits = text.skip(1);
    if text.len() == 0 || (text[0] != '+' && text[0] != '-') {
        None
    } else if digits.len() < width + 2 || !all_digits(digits) {
        None
    } else {
        Some(
            Angle {
                negative: text[0] == '-',
                degrees: decimal_value(digits.subrange(0, width)) as u32,
                minutes: decimal_value(digits.subrange(width, width + 2)) as u32,
                seconds: if digits.len() >= width + 4 {
                    decimal_value(digits.subrange(width + 2, width + 4)) as u32
                } else {
                    0
                },
            },
        )
    }
}

/// Whether `c` can start an angle.
pub open spec fn is_sign(c: char) -> bool {
    c == '+' || c == '-'
}

/// How many characters of `s` come before its first sign.
pub open spec fn length_before_sign(s: Seq<char>) -> nat
    decreases s.len(),
{
    if s.len() == 0 || is_sign(s[0]) {
        0
    } else {
        1 + length_before_sign(s.skip(1))
    }
}

/// The position a coordinate field spells: a latitude of two degree digits and
/// a longitude of three, told apart by the sign the second one starts with.
pub open spec fn coordinates_in(field: Seq<char>) -> Option<Coordinates> {
    let split = 1 + length_before_sign(field.skip(1)) as int;
    if field.len() == 0 || split >= field.len() {
        None
    } else {
        match (angle_in(field.take(split), 2), angle_in(field.skip(split), 3)) {
            (Some(latitude), Some(longitude)) => Some(Coordinates { latitude, longitude }),
            _ => None,
        }
    }
}

/// Whether a table line is the row for `zone`: not a comment, and with the name
/// in its third tab-separated field.
pub open spec fn is_row_for(line: Seq<char>, zone: Seq<char>) -> bool {
    !(line.len() > 0 && line[0] == '#') && fields(line, '\t').len() >= 3 && fields(line, '\t')[2]
        == zone
}

/// The position the first row for `zone` gives, if there is one and it is well
/// formed.
pub open spec fn zone_in(rows: Seq<Seq<char>>, zone: Seq<char>) -> Option<Coordinates>
    decreases rows.len(),
{
    if rows.len() == 0 {
        None
    } else if is_row_for(rows[0], zone) {
        coordinates_in(fields(rows[0], '\t')[1])
    } else {
        zone_in(rows.skip(1), zone)
    }
}

/// The number a run of up to nine digits spells.
fn number_at(digits: &Vec<char>, from: usize, to: usize) -> (value: u32)
    requires
        from <= to <= digits.len(),
        to - from <= 9,
        all_digits(digits@),
    ensures
        value == decimal_value(digits@.subrange(from as int, to as int)),
{
    let mut value: u32 = 0;
    let mut bound: u32 = 1;
    let mut i: usize = from;
    assert(digits@.subrange(from as int, from as int) =~= Seq::<char>::empty());
    while i < to
        invariant
            from <= i <= to <= digits.len(),
            to - from <= 9,
            all_digits(digits@),
            value == decimal_value(digits@.subrange(from as int, i as int)),
            value < bound,
            i == from ==> bound == 1,
            i == from + 1 ==> bound == 10,
            i == from + 2 ==> bound == 100,
            i == from + 3 ==> bound == 1_000,
            i == from + 4 ==> bound == 10_000,
            i == from + 5 ==> bound == 100_000,
            i == from + 6 ==> bound == 1_000_000,
            i == from + 7 ==> bound == 10_000_000,
            i == from + 8 ==> bound == 100_000_000,
            i == from + 9 ==> bound == 1_000_000_000,
        decreases to - i,
    {
        assert(is_digit(digits@[i as int]));
        let digit: u32 = digits[i] as u32 - '0' as u32;
        assert(digits@.subrange(from as int, i + 1).drop_last() =~= digits@.subrange(
            from as int,
            i as int,
        ));
        assert(digit == digit_value(digits@.subrange(from as int, i + 1).last()));
        value = value * 10 + digit;
        bound = bound * 10;
        i = i + 1;
    }
    value
}

/// Parses one `±DD[D]MM[SS]` angle. `degree_digits` is two for a latitude and
/// three for a longitude, which is the only thing distinguishing them.
pub fn parse_angle(text: &str, degree_digits: usize) -> (angle: Option<Angle>)
    requires
        1 <= degree_digits <= 9,
    ensures
        angle == angle_in(text@, degree_digits as int),
{
    let chars = chars_of(text);
    if chars.len() == 0 || (chars[0] != '+' && chars[0] != '-') {
        return None;
    }
    let mut digits: Vec<char> = Vec::new();
    let ghost all = text@.skip(1);
    for i in 1..chars.len()
        invariant
            chars@ == text@,
            all == text@.skip(1),
            digits@ =~= all.take(i - 1),
            all_digits(digits@),
    {
        if chars[i] < '0' || chars[i] > '9' {
            assert(all[i - 1] == chars@[i as int]);
            assert(!is_digit(all[i - 1]));
            return None;
        }
        digits.push(chars[i]);
    }
    assert(digits@ =~= all);
    if digits.len() < degree_digits + 2 {
        return None;
    }
    let degrees = number_at(&digits, 0, degree_digits);
    let minutes = number_at(&digits, degree_digits, degree_digits + 2);
    let seconds = if digits.len() >= degree_digits + 4 {
        number_at(&digits, degree_digits + 2, degree_digits + 4)
    } else {
        0
    };
    Some(Angle { negative: chars[0] == '-', degrees, minutes, seconds })
}

/// Parses a zone table's coordinate field, a latitude and a longitude run
/// together: `+415100-0873900`, or `+4439-06336` where the seconds are omitted.
pub fn parse_coordinates(field: &str) -> (at: Option<Coordinates>)
    ensures
        at == coordinates_in(field@),
{
    let chars = chars_of(field);
    if chars.len() == 0 {
        return None;
    }
    let mut split: usize = 1;
    let ghost rest = field@.skip(1);
    assert(rest.skip(0) =~= rest);
    while split < chars.len() && chars[split] != '+' && chars[split] != '-'
        invariant
            chars@ == field@,
            rest == field@.skip(1),
            1 <= split <= chars.len(),
            length_before_sign(rest) == split - 1 + length_before_sign(rest.skip(split - 1)),
        decreases chars.len() - split,
    {
        assert(rest.skip(split - 1)[0] == field@[split as int]);
        assert(rest.skip(split - 1).skip(1) =~= rest.skip(split as int));
        split = split + 1;
    }
    assert(length_before_sign(rest) == split - 1) by {
        if split < chars.len() {
            assert(rest.skip(split - 1)[0] == field@[split as int]);
        }
    }
    if split >= chars.len() {
        return None;
    }
    let latitude = field.substring_char(0, split);
    assert(latitude@ =~= field@.take(split as int));
    let longitude = field.substring_char(split, chars.len());
    assert(longitude@ =~= field@.skip(split as int));
    match (parse_angle(latitude, 2), parse_angle(longitude, 3)) {
        (Some(latitude), Some(longitude)) => Some(Coordinates { latitude, longitude }),
        _ => None,
    }
}

/// Scans one zone table for `zone`.
///
/// The format is tab-separated country codes, coordinates, name and an optional
/// comment, with `#` comment lines throughout.
pub fn find_zone(table: &str, zone: &str) -> (at: Option<Coordinates>)
    ensures
        at == zone_in(lines(table@), zone@),
{
    let rows = lines_of(table);
    let ghost all = lines(table@);
    assert(all.skip(0) =~= all);
    for i in 0..rows.len()
        invariant
            views(rows@) == all,
            all == lines(table@),
            zone_in(all, zone@) == zone_in(all.skip(i as int), zone@),
    {
        let ghost rest = all.skip(i as int);
        let row = rows[i];
        assert(all[i as int] == row@);
        assert(rest[0] == row@);
        assert(rest.skip(1) =~= all.skip(i + 1));
        let chars = chars_of(row);
        if !(chars.len() > 0 && chars[0] == '#') {
            let cells = fields_of(row, '\t');
            let ghost parts = fields(row@, '\t');
            assert(views(cells@) == parts);
            assert(parts.len() == cells.len());
            if cells.len() >= 3 {
                assert(parts[1] == cells[1]@ && parts[2] == cells[2]@);
                if same_text(cells[2], zone) {
                    return parse_coordinates(cells[1]);
                }
            }
        }
    }
    assert(all.len() == rows.len());
    assert(all.skip(rows.len() as int) =~= Seq::<Seq<char>>::empty());
    None
}

/// The position the first table that lists `zone` gives for it. `None` stands
/// for a table that could not be read.
pub open spec fn position_of_zone(tables: Seq<Option<Seq<char>>>, zone: Seq<char>) -> Option<
    Coordinates,
>
    decreases tables.len(),
{
    if tables.len() == 0 {
        None
    } else {
        let here = match tables[0] {
            Some(table) => zone_in(lines(table), zone),
            None => None,
        };
        if here is Some {
            here
        } else {
            position_of_zone(tables.skip(1), zone)
        }
    }
}

/// The texts of a list of tables.
pub open spec fn table_views(tables: Seq<Option<String>>) -> Seq<Option<Seq<char>>> {
    Seq::new(tables.len(), |i: int| optional_view(tables[i]))
}

/// Looks a zone name up in the tz database's zone tables, given what each of
/// [`ZONE_TABLES`] holds.
pub fn coordinates_for(tables: &Vec<Option<String>>, zone: &str) -> (at: Option<Coordinates>)
    ensures
        at == position_of_zone(table_views(tables@), zone@),
{
    let ghost all = table_views(tables@);
    assert(all.skip(0) =~= all);
    for i in 0..tables.len()
        invariant
            all == table_views(tables@),
            position_of_zone(all, zone@) == position_of_zone(all.skip(i as int), zone@),
    {
        assert(all.skip(i as int)[0] == optional_view(tables@[i as int]));
        assert(all.skip(i as int).skip(1) =~= all.skip(i + 1));
        if let Some(table) = &tables[i] {
            let found = find_zone(table.as_str(), zone);
            if found.is_some() {
                return found;
            }
        }
    }
    assert(all.skip(tables.len() as int) =~= Seq::<Option<Seq<char>>>::empty());
    None
}

/// The configured zone's name: what follows `/zoneinfo/` in the link
/// `/etc/localtime`, or else what `/etc/timezone` holds.
pub open spec fn zone_name(link: Option<Seq<char>>, name: Option<Seq<char>>) -> Option<Seq<char>> {
    let linked = match link {
        Some(target) => after_first(target, "/zoneinfo/"@),
        None => None,
    };
    if linked is Some {
        linked
    } else {
        match name {
            Some(text) => if trim(text).len() > 0 {
                Some(trim(text))
            } else {
                None
            },
            None => None,
        }
    }
}

/// The configured time zone's name, e.g. `"America/Chicago"`, given where the
/// link `/etc/localtime` points and what `/etc/timezone` holds.
pub fn timezone_name(localtime: &Option<String>, timezone: &Option<String>) -> (zone: Option<
    String,
>)
    ensures
        optional_view(zone) == zone_name(optional_view(*localtime), optional_view(*timezone)),
{
    if let Some(target) = localtime {
        if let Some(zone) = text_after(target.as_str(), "/zoneinfo/") {
            return Some(zone.to_owned());
        }
    }
    match timezone {
        Some(text) => {
            let name = trimmed(text.as_str());
            if name.is_empty() {
                None
            } else {
                Some(name.to_owned())
            }
        },
        None => None,
    }
}

/// **Law.** An angle's parts are within the digits it is spelled with.
pub proof fn angles_are_bounded(text: Seq<char>, width: int)
    requires
        angle_in(text, width) is Some,
        width == 2 || width == 3,
    ensures
        width == 2 ==> (angle_in(text, width)->0).degrees < 100,
        width == 3 ==> (angle_in(text, width)->0).degrees < 1000,
        (angle_in(text, width)->0).minutes < 100,
        (angle_in(text, width)->0).seconds < 100,
{
    let digits = text.skip(1);
    lemma_short_number(digits, 0, width);
    lemma_short_number(digits, width, width + 2);
    if digits.len() >= width + 4 {
        lemma_short_number(digits, width + 2, width + 4);
    }
}

proof fn lemma_short_number(digits: Seq<char>, from: int, to: int)
    requires
        0 <= from <= to <= digits.len(),
        all_digits(digits),
        to - from <= 3,
    ensures
        to - from == 2 ==> decimal_value(digits.subrange(from, to)) < 100,
        to - from == 3 ==> decimal_value(digits.subrange(from, to)) < 1000,
{
    reveal_with_fuel(decimal_value, 4);
    let s = digits.subrange(from, to);
    assert forall|i: int| 0 <= i < s.len() implies is_digit(#[trigger] s[i]) by {
        assert(s[i] == digits[from + i]);
    }
    if s.len() >= 1 {
        assert(is_digit(s[s.len() - 1]));
    }
    if s.len() >= 2 {
        assert(is_digit(s[s.len() - 2]));
        assert(s.drop_last().last() == s[s.len() - 2]);
    }
    if s.len() >= 3 {
        assert(is_digit(s[s.len() - 3]));
        assert(s.drop_last().drop_last().last() == s[s.len() - 3]);
    }
}

// ---------------------------------------------------------------------------
// The calendar
// ---------------------------------------------------------------------------
/// A calendar date: a year and a day of it, from 1.
#[derive(Clone, Copy, Debug, PartialEq, Eq, Structural)]
pub struct CalendarDate {
    pub year: i32,
    pub ordinal: u32,
}

/// Whether a year has a leap day.
pub open spec fn is_leap(year: int) -> bool {
    (year % 4 == 0 && year % 100 != 0) || year % 400 == 0
}

/// How many days a year has.
pub open spec fn year_length(year: int) -> int {
    if is_leap(year) {
        366
    } else {
        365
    }
}

/// The years a date can be in.
pub const FIRST_YEAR: i32 = -262_143;

pub const LAST_YEAR: i32 = 262_142;

/// The day a date is, counting 1 January of year 1 as day 1.
pub open spec fn day_number(year: int, ordinal: int) -> int {
    365 * (year - 1) + (year - 1) / 4 - (year - 1) / 100 + (year - 1) / 400 + ordinal
}

/// The day number of 1 January 1970.
pub const EPOCH_DAY: i64 = 719_163;

pub const SECONDS_PER_DAY: i64 = 86_400;

/// Whether a date exists.
pub open spec fn is_date(date: CalendarDate) -> bool {
    FIRST_YEAR <= date.year <= LAST_YEAR && 1 <= date.ordinal <= year_length(date.year as int)
}

/// Seconds from the Unix epoch to UTC midnight at the start of a date.
pub open spec fn midnight(date: CalendarDate) -> int {
    (day_number(date.year as int, date.ordinal as int) - EPOCH_DAY) * SECONDS_PER_DAY
}

/// Whether the day a moment falls on, in UTC, is one of the dates there are.
pub open spec fn is_moment(timestamp: int) -> bool {
    day_number(FIRST_YEAR as int, 1) <= timestamp / (SECONDS_PER_DAY as int) + EPOCH_DAY
        <= day_number(LAST_YEAR as int, year_length(LAST_YEAR as int))
}

/// How many days `date`'s year has.
pub fn days_in_year(date: CalendarDate) -> (days: u32)
    ensures
        days == year_length(date.year as int),
{
    let year: i64 = date.year as i64 + 2_147_483_648 + 352;
    assert(year % 400 == date.year as int % 400);
    assert(year % 4 == date.year as int % 4 && year % 100 == date.year as int % 100);
    if (year % 4 == 0 && year % 100 != 0) || year % 400 == 0 {
        366
    } else {
        365
    }
}

/// The local date: that of a reading of the local clock.
pub fn local_date() -> (date: CalendarDate)
    ensures
        1 <= date.ordinal <= year_length(date.year as int),
        exists|now: LocalNow| #[trigger]
            is_reading(now) && date.year == now.year && date.ordinal == now.ordinal,
{
    let now = local_now();
    assert(is_reading(now));
    CalendarDate { year: now.year, ordinal: now.ordinal }
}

/// UTC midnight at the start of a date, as `chrono` has it: the date made by
/// `chrono::NaiveDate::from_yo_opt`, its midnight by `and_hms_opt`, and the
/// seconds by `and_utc` and `timestamp`.
///
/// Claimed of them: there is an answer exactly for the dates there are, and it
/// counts the days since the Unix epoch in the proleptic Gregorian calendar,
/// each of 86,400 seconds.
#[verifier::external_body]
fn midnight_timestamp(year: i32, ordinal: u32) -> (timestamp: Option<i64>)
    ensures
        timestamp is Some <==> is_date((CalendarDate { year, ordinal })),
        timestamp matches Some(t) ==> t == midnight((CalendarDate { year, ordinal })),
{
    let date = chrono::NaiveDate::from_yo_opt(year, ordinal)?;
    Some(date.and_hms_opt(0, 0, 0)?.and_utc().timestamp())
}

/// The hour and minute the local clock shows at a moment, as `chrono` has it:
/// the moment made by `chrono::DateTime::from_timestamp`, taken to the local
/// time zone by `with_timezone`, and its `hour` and `minute`.
///
/// Which hour and minute depends on the machine's time zone, so nothing is said
/// of that. Claimed of them: there is an answer exactly for the moments there
/// are, and the two are within the ranges chrono documents.
#[verifier::external_body]
fn local_hour_and_minute(timestamp: i64) -> (time: Option<(u32, u32)>)
    ensures
        time is Some <==> is_moment(timestamp as int),
        time matches Some(t) ==> t.0 < 24 && t.1 < 60,
{
    let moment = chrono::DateTime::from_timestamp(timestamp, 0)?;
    let local = moment.with_timezone(&chrono::Local);
    Some((chrono::Timelike::hour(&local), chrono::Timelike::minute(&local)))
}

/// Whether the local clock, when it was asked about a moment, showed this hour
/// and minute.
pub closed spec fn local_clock_shows(timestamp: i64, time: (u32, u32)) -> bool {
    call_ensures(local_hour_and_minute, (timestamp,), Some(time))
}

/// The local clock shows an hour of a day and a minute of an hour.
pub proof fn lemma_local_clock(timestamp: i64, time: (u32, u32))
    requires
        local_clock_shows(timestamp, time),
    ensures
        time.0 < 24,
        time.1 < 60,
{
}

/// The moment `utc_seconds` after UTC midnight on `date`, in seconds from the
/// Unix epoch. `None` for a date the calendar does not have, or a moment that
/// cannot be counted.
pub fn instant_of(date: CalendarDate, utc_seconds: i64) -> (instant: Option<i64>)
    ensures
        instant is Some <==> is_date(date) && i64::MIN <= midnight(date) + utc_seconds <= i64::MAX,
        instant matches Some(t) ==> t == midnight(date) + utc_seconds,
{
    match midnight_timestamp(date.year, date.ordinal) {
        Some(start) => start.checked_add(utc_seconds),
        None => None,
    }
}

/// The hour and minute a clock shows, if it shows any, as minutes since
/// midnight.
pub fn minutes_shown(time: Option<(u32, u32)>) -> (minutes: Option<u32>)
    requires
        time matches Some(t) ==> t.0 < 24 && t.1 < 60,
    ensures
        minutes == (match time {
            Some((hour, minute)) => Some(minutes_of(hour as int, minute as int) as u32),
            None => None,
        }),
        minutes matches Some(m) ==> m < MINUTES_PER_DAY,
{
    match time {
        Some((hour, minute)) => Some(hour * 60 + minute),
        None => None,
    }
}

/// Turns seconds from UTC midnight on `date` into minutes since local midnight,
/// going through a real instant so that the local offset comes out of the tz
/// database. `None` for a date or an instant the calendar cannot hold.
///
/// The minutes are those of the hour and minute that the local clock shows at
/// that instant. Which they are depends on the machine's time zone.
pub fn to_local_minutes(date: CalendarDate, utc_seconds: i64) -> (minutes: Option<u32>)
    ensures
        minutes is Some <==> is_date(date) && is_moment(midnight(date) + utc_seconds),
        minutes matches Some(m) ==> m < MINUTES_PER_DAY,
        minutes is Some ==> exists|instant: i64, time: (u32, u32)| #[trigger]
            local_clock_shows(instant, time) && instant == midnight(date) + utc_seconds
                && minutes->0 == minutes_of(time.0 as int, time.1 as int),
{
    match instant_of(date, utc_seconds) {
        Some(instant) => {
            let time = local_hour_and_minute(instant);
            proof {
                if time is Some {
                    assert(local_clock_shows(instant, time->0));
                }
            }
            minutes_shown(time)
        },
        None => None,
    }
}

/// Both of a day's times, if both are known.
pub open spec fn both_times(sunrise: Option<u32>, sunset: Option<u32>) -> Option<SunTimes> {
    match (sunrise, sunset) {
        (Some(sunrise_minutes), Some(sunset_minutes)) => Some(
            SunTimes { sunrise_minutes, sunset_minutes },
        ),
        _ => None,
    }
}

/// Puts a day's two times together.
pub fn sun_times(sunrise: Option<u32>, sunset: Option<u32>) -> (times: Option<SunTimes>)
    ensures
        times == both_times(sunrise, sunset),
{
    match (sunrise, sunset) {
        (Some(sunrise_minutes), Some(sunset_minutes)) => Some(
            SunTimes { sunrise_minutes, sunset_minutes },
        ),
        _ => None,
    }
}

/// Sunrise and sunset on `date` as minutes since local midnight, given both in
/// seconds from UTC midnight, sunrise first, or `None` where the sun doesn't cross
/// the horizon.
pub fn sun_times_on(date: CalendarDate, utc_seconds: Option<(i64, i64)>) -> (times: Option<
    SunTimes,
>)
    ensures
        times is Some <==> (utc_seconds matches Some(s) && is_date(date) && is_moment(
            midnight(date) + s.0,
        ) && is_moment(midnight(date) + s.1)),
        times matches Some(t) ==> t.sunrise_minutes < MINUTES_PER_DAY && t.sunset_minutes
            < MINUTES_PER_DAY,
        times matches Some(t) ==> call_ensures(
            to_local_minutes,
            (date, (utc_seconds->0).0),
            Some(t.sunrise_minutes),
        ) && call_ensures(
            to_local_minutes,
            (date, (utc_seconds->0).1),
            Some(t.sunset_minutes),
        ),
{
    let (sunrise, sunset) = match utc_seconds {
        Some(seconds) => seconds,
        None => {
            return None;
        },
    };
    sun_times(to_local_minutes(date, sunrise), to_local_minutes(date, sunset))
}

// ---------------------------------------------------------------------------
// Today
// ---------------------------------------------------------------------------
/// A day's sun, remembered until the local date rolls over.
#[derive(Clone, Copy, Debug, PartialEq, Eq, Structural)]
pub struct Today {
    pub date: CalendarDate,
    /// Whether a location could be worked out at all, which is a different
    /// question from whether there were any times: a polar winter has a location
    /// and no sunrise.
    pub located: bool,
    pub times: Option<SunTimes>,
}

/// A day's sun as worked out from where the machine is.
pub open spec fn worked_out(
    date: CalendarDate,
    coordinates: Option<Coordinates>,
    times: Option<SunTimes>,
) -> Today {
    Today {
        date,
        located: coordinates is Some,
        times: if coordinates is Some {
            times
        } else {
            None
        },
    }
}

/// What a remembered day is worth on `date`: itself on its own date, and nothing
/// on any other.
pub open spec fn recalled(cached: Option<Today>, date: CalendarDate) -> Option<Today> {
    if cached is Some && (cached->0).date == date {
        cached
    } else {
        None
    }
}

/// The remembered day, unless the date has moved on.
pub fn current(cached: &Option<Today>, date: CalendarDate) -> (today: Option<Today>)
    ensures
        today == recalled(*cached, date),
{
    match cached {
        Some(today) => if today.date == date {
            Some(*today)
        } else {
            None
        },
        None => None,
    }
}

/// Remembers a day just worked out, in place of whatever was remembered before.
pub fn remember(
    cached: &mut Option<Today>,
    date: CalendarDate,
    coordinates: Option<Coordinates>,
    times: Option<SunTimes>,
) -> (today: Today)
    ensures
        today == worked_out(date, coordinates, times),
        *final(cached) == Some(today),
{
    let today = Today {
        date,
        located: coordinates.is_some(),
        times: if coordinates.is_some() {
            times
        } else {
            None
        },
    };
    *cached = Some(today);
    today
}

/// Today's sunrise and sunset, or `None` if there is no location to work from or
/// the sun doesn't cross the horizon today.
pub fn today(current: &Today) -> (times: Option<SunTimes>)
    ensures
        times == current.times,
{
    current.times
}

/// Whether a location could be worked out at all.
pub fn have_location(current: &Today) -> (located: bool)
    ensures
        located == current.located,
{
    current.located
}

/// **Law.** A day that was worked out answers for its own date until the date
/// rolls over, and for no other, so a machine left running overnight works the
/// next day out afresh.
pub proof fn a_day_answers_for_its_own_date(
    date: CalendarDate,
    coordinates: Option<Coordinates>,
    times: Option<SunTimes>,
    asked: CalendarDate,
)
    ensures
        asked == date ==> recalled(Some(worked_out(date, coordinates, times)), asked) == Some(
            worked_out(date, coordinates, times),
        ),
        asked != date ==> recalled(Some(worked_out(date, coordinates, times)), asked) is None,
{
}

/// **Law.** Without a location there are no times, while a location may have
/// none: in a polar winter the sun does not cross the horizon.
pub proof fn times_need_a_location(
    date: CalendarDate,
    coordinates: Option<Coordinates>,
    times: Option<SunTimes>,
)
    ensures
        worked_out(date, coordinates, times).times is Some ==> worked_out(
            date,
            coordinates,
            times,
        ).located,
{
}

} // verus!
