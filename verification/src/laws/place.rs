//! Where the machine is, and its days.

use crate::clock::{is_reading, minutes_of, now_minute_of_day, LocalNow};
use crate::scan::{
    after_first, contains, fields, lemma_after_first, length_before, lines, occurs_at,
};
use crate::solar::{
    coordinates_for, current, days_in_year, find_zone, have_location, instant_of, is_sign,
    lemma_local_clock, local_clock_shows, local_date, midnight, sun_times_on, to_local_minutes,
    length_before_sign, minutes_shown, parse_angle, parse_coordinates, position_of_zone, remember,
    sun_times, table_views, timezone_name, today, year_length, zone_in, Angle, CalendarDate,
    Coordinates, SunTimes, Today,
};
use crate::text::{all_digits, decimal_value, is_digit, trim};
use vstd::prelude::*;

verus! {

// ---------------------------------------------------------------------------
// Angles
// ---------------------------------------------------------------------------
/// The number that the characters from `from` up to `to` of a text spell.
pub open spec fn spelled(text: Seq<char>, from: int, to: int) -> int
    decreases to - from,
{
    if to <= from {
        0
    } else {
        spelled(text, from, to - 1) * 10 + (text[to - 1] as int - '0' as int)
    }
}

proof fn lemma_spelled(text: Seq<char>, from: int, to: int)
    requires
        1 <= from <= to <= text.len(),
        all_digits(text.skip(1)),
    ensures
        spelled(text, from, to) == decimal_value(text.skip(1).subrange(from - 1, to - 1)),
    decreases to - from,
{
    let digits = text.skip(1);
    let part = digits.subrange(from - 1, to - 1);
    if from < to {
        lemma_spelled(text, from, to - 1);
        assert(part.drop_last() =~= digits.subrange(from - 1, to - 2));
        assert(part.last() == text[to - 1]);
        assert(is_digit(digits[to - 2]));
    } else {
        assert(part =~= Seq::<char>::empty());
    }
}

/// **Law.** An angle is read from a sign and digits, and from nothing else: south
/// or west exactly if the sign is a minus, then its degrees, two digits of minutes
/// and, where there are two more digits, of seconds.
pub proof fn an_angle_is_its_sign_and_digits(text: &str, width: usize, angle: Option<Angle>)
    requires
        call_ensures(parse_angle, (text, width), angle),
        width == 2 || width == 3,
    ensures
        angle is Some <==> {
            &&& text@.len() >= width + 3
            &&& text@[0] == '+' || text@[0] == '-'
            &&& forall|i: int| 1 <= i < text@.len() ==> '0' <= #[trigger] text@[i] <= '9'
        },
        angle matches Some(a) ==> {
            &&& a.negative <==> text@[0] == '-'
            &&& a.degrees == spelled(text@, 1, 1 + width)
            &&& a.minutes == spelled(text@, 1 + width, 3 + width)
            &&& a.seconds == (if text@.len() >= width + 5 {
                spelled(text@, 3 + width, 5 + width)
            } else {
                0
            })
        },
{
    let digits = text@.skip(1);
    let w = width as int;
    assert(text@.len() > 0 ==> digits.len() == text@.len() - 1);
    if text@.len() > 0 && forall|i: int|
        1 <= i < text@.len() ==> '0' <= #[trigger] text@[i] <= '9' {
        assert forall|i: int| 0 <= i < digits.len() implies is_digit(#[trigger] digits[i]) by {
            assert(digits[i] == text@[i + 1]);
        }
    }
    if all_digits(digits) {
        assert forall|i: int| 1 <= i < text@.len() implies '0' <= #[trigger] text@[i] <= '9' by {
            assert(digits[i - 1] == text@[i]);
            assert(is_digit(digits[i - 1]));
        }
        if text@.len() >= w + 3 {
            lemma_spelled(text@, 1, 1 + w);
            lemma_spelled(text@, 1 + w, 3 + w);
            if text@.len() >= w + 5 {
                lemma_spelled(text@, 3 + w, 5 + w);
            }
            lemma_small(digits, 0, w);
            lemma_small(digits, w, w + 2);
            if text@.len() >= w + 5 {
                lemma_small(digits, w + 2, w + 4);
            }
        }
    }
}

proof fn lemma_small(digits: Seq<char>, from: int, to: int)
    requires
        0 <= from <= to <= digits.len(),
        all_digits(digits),
        to - from <= 3,
    ensures
        decimal_value(digits.subrange(from, to)) < 1000,
{
    reveal_with_fuel(decimal_value, 4);
    let s = digits.subrange(from, to);
    assert forall|i: int| 0 <= i < s.len() implies is_digit(#[trigger] s[i]) by {
        assert(s[i] == digits[from + i]);
    }
    if s.len() >= 1 {
        assert(is_digit(s[s.len() - 1]));
    }
    if s.len() >= 2 {
        assert(is_digit(s[s.len() - 2]));
        assert(s.drop_last().last() == s[s.len() - 2]);
    }
    if s.len() >= 3 {
        assert(is_digit(s[s.len() - 3]));
        assert(s.drop_last().drop_last().last() == s[s.len() - 3]);
    }
}

/// **Law.** Swapping the sign in front of an angle swaps north and south, or east
/// and west, and nothing else.
pub proof fn a_sign_swaps_the_hemisphere(
    one: &str,
    other: &str,
    width: usize,
    here: Option<Angle>,
    there: Option<Angle>,
)
    requires
        call_ensures(parse_angle, (one, width), here),
        call_ensures(parse_angle, (other, width), there),
        1 <= width <= 9,
        one@.len() > 0,
        other@.len() > 0,
        one@[0] == '+',
        other@[0] == '-',
        one@.skip(1) == other@.skip(1),
    ensures
        here is Some <==> there is Some,
        here is Some ==> !(here->0).negative && there == Some(
            Angle { negative: true, ..(here->0) },
        ),
{
}

// ---------------------------------------------------------------------------
// Coordinates
// ---------------------------------------------------------------------------
proof fn lemma_before_sign(s: Seq<char>, k: int)
    requires
        0 <= k <= s.len(),
        forall|i: int| 0 <= i < k ==> !is_sign(#[trigger] s[i]),
        k < s.len() ==> is_sign(s[k]),
    ensures
        length_before_sign(s) == k,
    decreases s.len(),
{
    if k > 0 {
        assert(!is_sign(s[0]));
        let rest = s.skip(1);
        assert forall|i: int| 0 <= i < k - 1 implies !is_sign(#[trigger] rest[i]) by {
            assert(rest[i] == s[i + 1]);
        }
        if k < s.len() {
            assert(rest[k - 1] == s[k]);
        }
        lemma_before_sign(rest, k - 1);
    }
}

/// **Law.** A coordinate field is a latitude of two degree digits and a longitude
/// of three, run together: the longitude starts at the second sign.
pub proof fn a_field_is_a_latitude_and_a_longitude(
    field: &str,
    north: &str,
    east: &str,
    at: Option<Coordinates>,
    latitude: Option<Angle>,
    longitude: Option<Angle>,
)
    requires
        call_ensures(parse_coordinates, (field,), at),
        call_ensures(parse_angle, (north, 2usize), latitude),
        call_ensures(parse_angle, (east, 3usize), longitude),
        field@ == north@ + east@,
        north@.len() > 0,
        forall|i: int|
            1 <= i < north@.len() ==> #[trigger] north@[i] != '+' && north@[i] != '-',
        east@.len() > 0,
        east@[0] == '+' || east@[0] == '-',
    ensures
        at is Some <==> latitude is Some && longitude is Some,
        at matches Some(c) ==> Some(c.latitude) == latitude && Some(c.longitude) == longitude,
{
    let rest = field@.skip(1);
    let k = north@.len() - 1;
    assert forall|i: int| 0 <= i < k implies !is_sign(#[trigger] rest[i]) by {
        assert(rest[i] == north@[i + 1]);
    }
    assert(rest[k] == east@[0]);
    lemma_before_sign(rest, k);
    assert(field@.take(k + 1) =~= north@);
    assert(field@.skip(k + 1) =~= east@);
}

/// **Law.** A field without a second sign is no position.
pub proof fn a_field_without_a_longitude_is_none(field: &str, at: Option<Coordinates>)
    requires
        call_ensures(parse_coordinates, (field,), at),
        forall|i: int|
            1 <= i < field@.len() ==> #[trigger] field@[i] != '+' && field@[i] != '-',
    ensures
        at is None,
{
    if field@.len() > 0 {
        let rest = field@.skip(1);
        assert forall|i: int| 0 <= i < rest.len() implies !is_sign(#[trigger] rest[i]) by {
            assert(rest[i] == field@[i + 1]);
        }
        lemma_before_sign(rest, rest.len() as int);
    }
}

// ---------------------------------------------------------------------------
// Zone tables
// ---------------------------------------------------------------------------
/// What comes before the first `c`.
pub proof fn lemma_before(s: Seq<char>, c: char, k: int)
    requires
        0 <= k <= s.len(),
        forall|i: int| 0 <= i < k ==> #[trigger] s[i] != c,
        k < s.len() ==> s[k] == c,
    ensures
        length_before(s, c) == k,
    decreases s.len(),
{
    if k > 0 {
        assert(s[0] != c);
        let rest = s.skip(1);
        assert forall|i: int| 0 <= i < k - 1 implies #[trigger] rest[i] != c by {
            assert(rest[i] == s[i + 1]);
        }
        if k < s.len() {
            assert(rest[k - 1] == s[k]);
        }
        lemma_before(rest, c, k - 1);
    }
}

/// Whether `c` is nowhere in a text.
pub open spec fn without(text: Seq<char>, c: char) -> bool {
    forall|i: int| 0 <= i < text.len() ==> #[trigger] text[i] != c
}

/// A text cut at the first separator.
pub proof fn lemma_first_field(first: Seq<char>, separator: char, rest: Seq<char>)
    requires
        without(first, separator),
    ensures
        fields(first + seq![separator] + rest, separator) == seq![first] + fields(rest, separator),
        fields(first, separator) == seq![first],
{
    let whole = first + seq![separator] + rest;
    let k = first.len() as int;
    lemma_before(whole, separator, k);
    assert(whole.take(k) =~= first);
    assert(whole.skip(k + 1) =~= rest);
    lemma_before(first, separator, k);
}

/// A text cut at the first line feed.
pub proof fn lemma_first_line(first: Seq<char>, rest: Seq<char>)
    requires
        without(first, '\n'),
        first.len() > 0 ==> first.last() != '\r',
    ensures
        lines(first + seq!['\n'] + rest) == seq![first] + lines(rest),
{
    let whole = first + seq!['\n'] + rest;
    let k = first.len() as int;
    lemma_before(whole, '\n', k);
    assert(whole.take(k) =~= first);
    assert(whole.skip(k + 1) =~= rest);
}

/// **Law.** A table that starts with the row for a zone gives the position in that
/// row's second field, whatever comes after it.
pub proof fn the_first_row_for_a_zone_is_believed(
    table: &str,
    zone: &str,
    codes: Seq<char>,
    place: &str,
    comment: Seq<char>,
    rest: Seq<char>,
    found: Option<Coordinates>,
    at: Option<Coordinates>,
)
    requires
        call_ensures(find_zone, (table, zone), found),
        call_ensures(parse_coordinates, (place,), at),
        table@ == codes + seq!['\t'] + (place@ + seq!['\t'] + (zone@ + comment)) + seq!['\n']
            + rest,
        codes.len() > 0 ==> codes[0] != '#',
        without(codes, '\t') && without(place@, '\t') && without(zone@, '\t'),
        without(codes, '\n') && without(place@, '\n') && without(zone@, '\n') && without(
            comment,
            '\n',
        ),
        without(codes, '\r') && without(place@, '\r') && without(zone@, '\r') && without(
            comment,
            '\r',
        ),
        comment.len() == 0 || comment[0] == '\t',
    ensures
        found == at,
{
    let row = codes + seq!['\t'] + (place@ + seq!['\t'] + (zone@ + comment));
    assert forall|i: int| 0 <= i < row.len() implies #[trigger] row[i] != '\n' && row[i]
        != '\r' by {}
    assert(row.last() == row[row.len() - 1]);
    lemma_first_line(row, rest);
    assert(table@ =~= row + seq!['\n'] + rest);
    let all = lines(table@);
    assert(all[0] == row);
    lemma_first_field(codes, '\t', place@ + seq!['\t'] + (zone@ + comment));
    lemma_first_field(place@, '\t', zone@ + comment);
    if comment.len() == 0 {
        assert(zone@ + comment =~= zone@);
        lemma_first_field(zone@, '\t', Seq::empty());
    } else {
        let tail = comment.skip(1);
        assert(zone@ + comment =~= zone@ + seq!['\t'] + tail);
        lemma_first_field(zone@, '\t', tail);
    }
    let cells = fields(row, '\t');
    assert(cells[0] == codes && cells[1] == place@ && cells[2] == zone@);
    assert(row[0] == (if codes.len() > 0 {
        codes[0]
    } else {
        '\t'
    }));
}

/// **Law.** A comment, or a row for some other zone, changes nothing: the table is
/// read as if it started after it.
pub proof fn other_rows_are_passed_over(
    table: &str,
    rest: &str,
    zone: &str,
    row: Seq<char>,
    found: Option<Coordinates>,
    later: Option<Coordinates>,
)
    requires
        call_ensures(find_zone, (table, zone), found),
        call_ensures(find_zone, (rest, zone), later),
        table@ == row + seq!['\n'] + rest@,
        without(row, '\n') && without(row, '\r'),
        (row.len() > 0 && row[0] == '#') || fields(row, '\t').len() < 3 || fields(row, '\t')[2]
            != zone@,
    ensures
        found == later,
{
    lemma_first_line(row, rest@);
    let all = lines(table@);
    assert(all[0] == row);
    assert(all.skip(1) =~= lines(rest@));
}

/// **Law.** An empty table lists no zone.
pub proof fn an_empty_table_lists_nothing(table: &str, zone: &str, found: Option<Coordinates>)
    requires
        call_ensures(find_zone, (table, zone), found),
        table@.len() == 0,
    ensures
        found is None,
{
}

/// **Law.** The tables are asked in order: the first one that knows the zone
/// decides, one that could not be read is passed over, and where none knows it
/// there is no position.
pub proof fn the_first_table_that_knows_decides(
    tables: Vec<Option<String>>,
    zone: &str,
    at: int,
    position: Option<Coordinates>,
)
    requires
        call_ensures(coordinates_for, (&tables, zone), position),
        0 <= at <= tables.len(),
        forall|i: int|
            0 <= i < at ==> (#[trigger] tables@[i] is None || zone_in(
                lines((tables@[i]->0)@),
                zone@,
            ) is None),
    ensures
        at < tables.len() && tables@[at] is Some && zone_in(lines((tables@[at]->0)@), zone@) is Some
            ==> position == zone_in(lines((tables@[at]->0)@), zone@),
        at == tables.len() ==> position is None,
{
    let all = table_views(tables@);
    assert forall|i: int| 0 <= i < at implies (#[trigger] all[i] is None || zone_in(
        lines(all[i]->0),
        zone@,
    ) is None) by {
        assert(tables@[i] is None || zone_in(lines((tables@[i]->0)@), zone@) is None);
    }
    if at < tables.len() {
        lemma_first_table(all, zone@, at);
    } else if at > 0 {
        lemma_first_table(all, zone@, at - 1);
    }
}

/// The first table that knows a zone decides.
proof fn lemma_first_table(
    tables: Seq<Option<Seq<char>>>,
    zone: Seq<char>,
    at: int,
)
    requires
        0 <= at < tables.len(),
        forall|i: int|
            0 <= i < at ==> (#[trigger] tables[i] is None || zone_in(
                lines(tables[i]->0),
                zone,
            ) is None),
    ensures
        tables[at] is Some && zone_in(lines(tables[at]->0), zone) is Some ==> position_of_zone(
            tables,
            zone,
        ) == zone_in(lines(tables[at]->0), zone),
        at == tables.len() - 1 && (tables[at] is None || zone_in(
            lines(tables[at]->0),
            zone,
        ) is None) ==> position_of_zone(tables, zone) is None,
    decreases at,
{
    reveal_with_fuel(position_of_zone, 2);
    let rest = tables.skip(1);
    if at > 0 {
        assert(tables[0] is None || zone_in(lines(tables[0]->0), zone) is None);
        assert(rest[at - 1] == tables[at]);
        assert forall|i: int| 0 <= i < at - 1 implies (#[trigger] rest[i] is None || zone_in(
            lines(rest[i]->0),
            zone,
        ) is None) by {
            assert(rest[i] == tables[i + 1]);
        }
        lemma_first_table(rest, zone, at - 1);
    } else {
        assert(tables.len() == 1 ==> rest.len() == 0);
    }
}

// ---------------------------------------------------------------------------
// The zone's name
// ---------------------------------------------------------------------------
/// Whether `part` first occurs in a text right after `before`.
pub open spec fn first_after(whole: Seq<char>, before: Seq<char>, part: Seq<char>) -> bool {
    &&& before.len() + part.len() <= whole.len()
    &&& whole.take(before.len() as int) == before
    &&& whole.subrange(before.len() as int, (before.len() + part.len()) as int) == part
    &&& forall|i: int|
        0 <= i < before.len() && i + part.len() <= whole.len() ==> #[trigger] whole.subrange(
            i,
            (i + part.len()) as int,
        ) != part
}

pub proof fn lemma_first_after(whole: Seq<char>, before: Seq<char>, part: Seq<char>)
    requires
        first_after(whole, before, part),
    ensures
        after_first(whole, part) == Some(whole.skip((before.len() + part.len()) as int)),
{
    let at = before.len() as int;
    assert(occurs_at(whole, part, at));
    assert forall|other: int| 0 <= other < at implies !#[trigger] occurs_at(
        whole,
        part,
        other,
    ) by {}
    lemma_after_first(whole, part, at);
}

/// **Law.** A link into the zone directory names the zone by what follows; only
/// without such a link does the name come from the file, trimmed, and an empty
/// file names none.
pub proof fn the_link_names_the_zone_before_the_file(
    link: Option<String>,
    file: Option<String>,
    zone: Option<String>,
    base: Seq<char>,
)
    requires
        call_ensures(timezone_name, (&link, &file), zone),
    ensures
        link is Some && first_after((link->0)@, base, "/zoneinfo/"@) ==> zone is Some && (zone->0)@
            == (link->0)@.skip((base.len() + "/zoneinfo/"@.len()) as int),
        (link is None || !contains((link->0)@, "/zoneinfo/"@)) && file is Some && trim(
            (file->0)@,
        ).len() > 0 ==> zone is Some && (zone->0)@ == trim((file->0)@),
        (link is None || !contains((link->0)@, "/zoneinfo/"@)) && (file is None || trim(
            (file->0)@,
        ).len() == 0) ==> zone is None,
{
    if link is Some && first_after((link->0)@, base, "/zoneinfo/"@) {
        lemma_first_after((link->0)@, base, "/zoneinfo/"@);
    }
}

// ---------------------------------------------------------------------------
// Days
// ---------------------------------------------------------------------------
/// **Law.** Days follow one another, each 86,400 seconds long, from the epoch at
/// 1 January 1970: the next day of a year starts a day later, and the first day of
/// the next year a day after the last.
pub proof fn days_follow_one_another(
    date: CalendarDate,
    next: CalendarDate,
    seconds: i64,
    here: Option<i64>,
    there: Option<i64>,
)
    requires
        call_ensures(instant_of, (date, seconds), here),
        call_ensures(instant_of, (next, seconds), there),
        here is Some,
        there is Some,
        (next.year == date.year && next.ordinal == date.ordinal + 1) || (next.year == date.year + 1
            && next.ordinal == 1 && date.ordinal == year_length(date.year as int)),
    ensures
        there->0 == here->0 + 86_400,
        date.year == 1970 && date.ordinal == 1 ==> here->0 == seconds,
{
    let y = date.year as int;
    if next.year == date.year + 1 {
        lemma_year(y);
    }
}

/// A year is as many days long as there are between its first day and the next
/// year's.
proof fn lemma_year(y: int)
    ensures
        365 * y + y / 4 - y / 100 + y / 400 == 365 * (y - 1) + (y - 1) / 4 - (y - 1) / 100 + (y
            - 1) / 400 + year_length(y),
{
    lemma_fourths(y);
    lemma_hundredths(y);
    lemma_four_hundredths(y);
    lemma_remainders(y);
}

proof fn lemma_fourths(y: int)
    ensures
        y % 4 == 0 ==> y / 4 == (y - 1) / 4 + 1,
        y % 4 != 0 ==> y / 4 == (y - 1) / 4,
{
}

proof fn lemma_hundredths(y: int)
    ensures
        y % 100 == 0 ==> y / 100 == (y - 1) / 100 + 1,
        y % 100 != 0 ==> y / 100 == (y - 1) / 100,
{
}

proof fn lemma_four_hundredths(y: int)
    ensures
        y % 400 == 0 ==> y / 400 == (y - 1) / 400 + 1,
        y % 400 != 0 ==> y / 400 == (y - 1) / 400,
{
}

/// **Law.** A year has a leap day every fourth year, but for centuries that are
/// not every fourth one.
pub proof fn leap_years_come_every_fourth(date: CalendarDate, days: u32)
    requires
        call_ensures(days_in_year, (date,), days),
    ensures
        days == 365 || days == 366,
        date.year as int % 4 != 0 ==> days == 365,
        date.year as int % 4 == 0 && date.year as int % 100 != 0 ==> days == 366,
        date.year as int % 100 == 0 && date.year as int % 400 != 0 ==> days == 365,
        date.year as int % 400 == 0 ==> days == 366,
{
    let y = date.year as int;
    lemma_remainders(y);
}

proof fn lemma_remainders(y: int)
    ensures
        y % 400 == 0 ==> y % 100 == 0,
        y % 100 == 0 ==> y % 4 == 0,
{
    assert(y % 400 == 0 ==> y % 100 == 0) by (nonlinear_arith);
    assert(y % 100 == 0 ==> y % 4 == 0) by (nonlinear_arith);
}

/// **Law.** Both of a day's times are needed, and each stays what it is; a clock's
/// hour and minute are counted in minutes.
pub proof fn a_day_has_both_times_or_none(
    sunrise: Option<u32>,
    sunset: Option<u32>,
    times: Option<SunTimes>,
    hour: u32,
    minute: u32,
    minutes: Option<u32>,
)
    requires
        call_ensures(sun_times, (sunrise, sunset), times),
        call_ensures(minutes_shown, (Some((hour, minute)),), minutes),
        hour < 24,
        minute < 60,
    ensures
        times is Some <==> sunrise is Some && sunset is Some,
        times matches Some(t) ==> Some(t.sunrise_minutes) == sunrise && Some(t.sunset_minutes)
            == sunset,
        minutes is Some && minutes->0 == hour * 60 + minute,
{
}

/// **Law.** A day that was worked out is recalled on its own date and forgotten on
/// any other; it has the times it was given if the machine was located, and none
/// if it was not.
pub proof fn a_day_is_recalled_on_its_own_date(
    cached: &mut Option<Today>,
    date: CalendarDate,
    at: Option<Coordinates>,
    times: Option<SunTimes>,
    day: Today,
    asked: CalendarDate,
    recalled: Option<Today>,
    sun: Option<SunTimes>,
    located: bool,
)
    requires
        call_ensures(remember, (cached, date, at, times), day),
        call_ensures(current, (&*final(cached), asked), recalled),
        call_ensures(today, (&day,), sun),
        call_ensures(have_location, (&day,), located),
    ensures
        asked == date ==> recalled == Some(day),
        asked != date ==> recalled is None,
        located <==> at is Some,
        located ==> sun == times,
        !located ==> sun is None,
{
}

/// **Law.** Sunrise and sunset are each the local time of their own instant, and
/// there are none where the sun does not cross the horizon.
pub proof fn each_time_is_that_of_its_own_instant(
    date: CalendarDate,
    sunrise: i64,
    sunset: i64,
    times: Option<SunTimes>,
    dark: Option<SunTimes>,
)
    requires
        call_ensures(sun_times_on, (date, Some((sunrise, sunset))), times),
        call_ensures(sun_times_on, (date, None::<(i64, i64)>), dark),
    ensures
        dark is None,
        times matches Some(t) ==> call_ensures(
            to_local_minutes,
            (date, sunrise),
            Some(t.sunrise_minutes),
        ) && call_ensures(to_local_minutes, (date, sunset), Some(t.sunset_minutes)),
{
}

/// **Law.** There is a local time for every instant between the first and the last
/// second there are, and for no other; it is the hour and minute the local clock
/// shows at that instant, and so a time of day.
pub proof fn every_instant_there_is_has_a_local_time(
    date: CalendarDate,
    seconds: i64,
    instant: Option<i64>,
    minutes: Option<u32>,
)
    requires
        call_ensures(instant_of, (date, seconds), instant),
        call_ensures(to_local_minutes, (date, seconds), minutes),
    ensures
        minutes is Some <==> instant is Some && -8_334_601_228_800 <= instant->0
            <= 8_210_266_876_799,
        minutes matches Some(m) ==> m < 1440 && exists|time: (u32, u32)| #[trigger]
            local_clock_shows(instant->0, time) && m == time.0 * 60 + time.1,
        instant is Some ==> -262_143 <= date.year <= 262_142 && 1 <= date.ordinal <= 366,
        date.ordinal == 0 || date.ordinal > 366 ==> instant is None,
        date.ordinal == 366 && date.year as int % 4 != 0 ==> instant is None,
        1 <= date.ordinal <= 365 && -262_143 <= date.year <= 262_142 && -8_000_000_000_000_000
            <= seconds <= 8_000_000_000_000_000 ==> instant is Some,
{
    if minutes is Some {
        let (found, time) = choose|found: i64, time: (u32, u32)| #[trigger]
            local_clock_shows(found, time) && found == midnight(date) + seconds && minutes->0
                == minutes_of(time.0 as int, time.1 as int);
        assert(local_clock_shows(instant->0, time));
        lemma_local_clock(instant->0, time);
    }
}

/// **Law.** The local date is that of a reading of the clock, and the time now is
/// the hour and minute of one.
pub proof fn now_is_read_off_the_clock(date: CalendarDate, minutes: u32)
    requires
        call_ensures(local_date, (), date),
        call_ensures(now_minute_of_day, (), minutes),
    ensures
        exists|now: LocalNow| #[trigger]
            is_reading(now) && date.year == now.year && date.ordinal == now.ordinal,
        exists|now: LocalNow| #[trigger] is_reading(now) && minutes == now.hour * 60 + now.minute,
        minutes < 1440,
{
    let now = choose|now: LocalNow| #[trigger]
        is_reading(now) && minutes == minutes_of(now.hour as int, now.minute as int);
    assert(is_reading(now));
    assert(now.hour < 24 && now.minute < 60);
}

} // verus!
