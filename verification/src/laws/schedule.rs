//! When the tint is wanted, and how that is worded.

use crate::clock::{
    compose_time, format_time, hour_labels, is_night_at, minute_labels, minute_of_day,
    now_minute_of_day, split_time, to_hour24, LocalNow,
};
use crate::config::{
    expire_override, expire_override_at, handler_view, kelvin_of, read_time_of_day, status_text, warmth_of, Override, Schedule,
    Settings, Store,
};
use crate::solar::SunTimes;
use crate::text::{all_digits, decimal_value, is_digit};
use crate::tick::{toggle_override, Moment};
use vstd::prelude::*;

verus! {

/// How long after `from` it is `minute`, going round the clock.
pub open spec fn since(from: int, minute: int) -> int {
    (minute - from) % 1440
}

/// **Law.** It is night from sunset for as long as it takes to reach sunrise,
/// going round the clock; where the two are the same time, it is always night.
pub proof fn night_runs_from_sunset_round_to_sunrise(
    minute: u32,
    sunrise: u32,
    sunset: u32,
    night: bool,
)
    requires
        call_ensures(is_night_at, (minute, sunrise, sunset), night),
        minute < 1440,
        sunrise < 1440,
        sunset < 1440,
    ensures
        sunset == sunrise ==> night,
        sunset != sunrise ==> (night <==> since(sunset as int, minute as int) < since(
            sunset as int,
            sunrise as int,
        )),
{
}

/// **Law.** The window a schedule works to opens at sunset and closes at sunrise:
/// the typed times for a custom schedule, the day's own for a solar one, and the
/// typed ones for a solar one on a day without sun times. There is none without a
/// schedule.
pub proof fn the_window_is_the_suns_or_the_typed_one(
    settings: Settings,
    sun: Option<SunTimes>,
    window: Option<(u32, u32)>,
)
    requires
        call_ensures(Settings::window, (&settings, sun), window),
    ensures
        settings.schedule == Schedule::Manual <==> window is None,
        settings.schedule == Schedule::Custom ==> (window->0).0 == settings.sunset_minutes
            && (window->0).1 == settings.sunrise_minutes,
        settings.schedule == Schedule::Solar && sun is Some ==> (window->0).0 == (
        sun->0).sunset_minutes && (window->0).1 == (sun->0).sunrise_minutes,
        settings.schedule == Schedule::Solar && sun is None ==> (window->0).0
            == settings.sunset_minutes && (window->0).1 == settings.sunrise_minutes,
{
}

/// **Law.** Every schedule with a window wants the tint exactly from the window's
/// opening round to its closing, whether the window is the sun's or a typed one;
/// one whose ends are the same wants it always, and no schedule never does.
pub proof fn a_schedule_wants_the_tint_through_its_window(
    settings: Settings,
    minute: u32,
    sun: Option<SunTimes>,
    window: Option<(u32, u32)>,
    wants: bool,
)
    requires
        call_ensures(Settings::schedule_wants_tint_at, (&settings, minute, sun), wants),
        call_ensures(Settings::window, (&settings, sun), window),
        minute < 1440,
        window is Some ==> (window->0).0 < 1440 && (window->0).1 < 1440,
    ensures
        window is None ==> !wants,
        window is Some && (window->0).0 == (window->0).1 ==> wants,
        window is Some && (window->0).0 != (window->0).1 ==> (wants <==> since(
            (window->0).0 as int,
            minute as int,
        ) < since((window->0).0 as int, (window->0).1 as int)),
{
}

/// **Law.** With the day's sun known, a solar schedule wants the tint exactly from
/// that day's sunset round to its sunrise, and the typed times say nothing.
pub proof fn the_solar_schedule_follows_the_sun(
    settings: Settings,
    minute: u32,
    sun: SunTimes,
    wants: bool,
)
    requires
        call_ensures(Settings::schedule_wants_tint_at, (&settings, minute, Some(sun)), wants),
        settings.schedule == Schedule::Solar,
        minute < 1440,
        sun.sunrise_minutes < 1440,
        sun.sunset_minutes < 1440,
        sun.sunrise_minutes != sun.sunset_minutes,
    ensures
        wants <==> since(sun.sunset_minutes as int, minute as int) < since(
            sun.sunset_minutes as int,
            sun.sunrise_minutes as int,
        ),
{
}

/// **Law.** The typed times decide for a custom schedule whatever the sun does,
/// and for a solar one on a day without sun times.
pub proof fn the_typed_times_decide_otherwise(
    settings: Settings,
    minute: u32,
    sun: Option<SunTimes>,
    wants: bool,
)
    requires
        call_ensures(Settings::schedule_wants_tint_at, (&settings, minute, sun), wants),
        settings.schedule == Schedule::Custom || (settings.schedule == Schedule::Solar
            && sun is None),
        minute < 1440,
        settings.sunrise_minutes < 1440,
        settings.sunset_minutes < 1440,
        settings.sunrise_minutes != settings.sunset_minutes,
    ensures
        wants <==> since(settings.sunset_minutes as int, minute as int) < since(
            settings.sunset_minutes as int,
            settings.sunrise_minutes as int,
        ),
{
}

/// **Law.** The tint is on where the override says so, and without one where the
/// schedule wants it. The override has been caught up with exactly where there is
/// one and the schedule asks for the same.
pub proof fn an_override_decides_before_the_schedule(
    settings: Settings,
    minute: u32,
    sun: Option<SunTimes>,
    wants: bool,
    on: bool,
    caught_up: bool,
)
    requires
        call_ensures(Settings::schedule_wants_tint_at, (&settings, minute, sun), wants),
        call_ensures(Settings::tint_on_at, (&settings, minute, sun), on),
        call_ensures(Settings::override_caught_up_at, (&settings, minute, sun), caught_up),
    ensures
        settings.tint_override == Override::On ==> on && caught_up == wants,
        settings.tint_override == Override::Off ==> !on && caught_up == !wants,
        settings.tint_override == Override::Auto ==> on == wants && !caught_up,
{
}

/// **Law.** What is wanted now is what is wanted at the minute the clock shows.
pub proof fn now_is_the_minute_the_clock_shows(
    settings: Settings,
    sun: Option<SunTimes>,
    wants: bool,
    on: bool,
)
    requires
        call_ensures(Settings::schedule_wants_tint, (&settings, sun), wants),
        call_ensures(Settings::tint_on, (&settings, sun), on),
    ensures
        exists|minute: u32| #[trigger]
            call_ensures(now_minute_of_day, (), minute) && (settings.schedule == Schedule::Custom
                && settings.sunrise_minutes < 1440 && settings.sunset_minutes < 1440
                && settings.sunrise_minutes != settings.sunset_minutes ==> (wants <==> since(
                settings.sunset_minutes as int,
                minute as int,
            ) < since(settings.sunset_minutes as int, settings.sunrise_minutes as int))),
        settings.schedule == Schedule::Manual ==> !wants,
        settings.tint_override == Override::On ==> on,
        settings.tint_override == Override::Off ==> !on,
{
    let minute = choose|minute: u32| #[trigger]
        call_ensures(now_minute_of_day, (), minute) && wants == settings.scheduled_at(
            minute as int,
            sun,
        );
    assert(call_ensures(now_minute_of_day, (), minute));
}

/// **Law.** An override lapses exactly where it has been caught up with: it is
/// cleared in the snapshot and in the store, and nothing else changes in either.
/// The tint stays as it was.
pub proof fn a_lapse_clears_the_override_alone(
    handler: &mut Option<Store>,
    settings: &mut Settings,
    minute: u32,
    sun: Option<SunTimes>,
    caught_up: bool,
    before: bool,
    after: bool,
)
    requires
        call_ensures(expire_override_at, (handler, settings, minute, sun), ()),
        call_ensures(Settings::override_caught_up_at, (&*old(settings), minute, sun), caught_up),
        call_ensures(Settings::tint_on_at, (&*old(settings), minute, sun), before),
        call_ensures(Settings::tint_on_at, (&*final(settings), minute, sun), after),
    ensures
        final(settings).tint_override == (if caught_up {
            Override::Auto
        } else {
            old(settings).tint_override
        }),
        *final(settings) == (Settings {
            tint_override: final(settings).tint_override,
            ..*old(settings)
        }),
        before == after,
        ({
            let stored = handler_view(*old(handler));
            let lapsed = handler_view(*final(handler));
            &&& !caught_up ==> lapsed == stored
            &&& lapsed is Some <==> stored is Some
            &&& stored is Some && caught_up ==> {
                &&& (lapsed->0).tint_override == Some("auto"@)
                &&& (lapsed->0).temperature == (stored->0).temperature
                &&& (lapsed->0).brightness == (stored->0).brightness
                &&& (lapsed->0).schedule == (stored->0).schedule
                &&& (lapsed->0).deferred_schedule == (stored->0).deferred_schedule
                &&& (lapsed->0).sunrise_minutes == (stored->0).sunrise_minutes
                &&& (lapsed->0).sunset_minutes == (stored->0).sunset_minutes
            }
        }),
{
}

/// **Law.** The toggle sets an override only against the schedule: flipping it to
/// what the schedule wants follows the schedule.
pub proof fn the_toggle_overrides_only_against_the_schedule(
    settings: Settings,
    on: bool,
    moment: Moment,
    wants: bool,
    value: Override,
)
    requires
        call_ensures(toggle_override, (&settings, on, moment), value),
        call_ensures(
            Settings::schedule_wants_tint_at,
            (&settings, moment.minute_of_day, moment.sun),
            wants,
        ),
    ensures
        value == Override::Auto <==> on == wants,
        value == Override::On <==> on && !wants,
        value == Override::Off <==> !on && wants,
{
}

/// **Law.** What the screen should show is the temperature exactly where the tint
/// is on.
pub proof fn the_screen_shows_the_temperature_while_on(
    settings: Settings,
    moment: Moment,
    on: bool,
    state: Option<u32>,
)
    requires
        call_ensures(
            Settings::tint_on_at,
            (&settings, moment.minute_of_day, moment.sun),
            on,
        ),
        call_ensures(Settings::desired_at, (&settings, moment), state),
    ensures
        on ==> state == Some(settings.temperature),
        !on ==> state is None,
{
}

// ---------------------------------------------------------------------------
// Times
// ---------------------------------------------------------------------------
/// **Law.** A stored time is read in minutes where it is stored in minutes, else
/// in whole hours, and never lies outside a day.
pub proof fn a_stored_time_is_a_time_of_day(
    minutes: Option<u32>,
    hour: Option<u32>,
    time: Option<u32>,
)
    requires
        call_ensures(read_time_of_day, (minutes, hour), time),
    ensures
        time is None <==> minutes is None && hour is None,
        time is Some ==> time->0 < 1440,
        minutes is Some && minutes->0 < 1440 ==> time == minutes,
        minutes is Some && minutes->0 >= 1440 ==> time == Some(1439u32),
        minutes is None && hour is Some && hour->0 < 24 ==> time->0 == hour->0 * 60,
        minutes is None && hour is Some && hour->0 >= 24 ==> time == Some(1380u32),
{
}

/// **Law.** A time splits into an hour and a minute of the day it falls in, and
/// goes back together into that time; what is beyond a day's hours or an hour's
/// minutes is taken for the last of them.
pub proof fn a_time_is_its_hour_and_minute(
    minutes: u32,
    parts: (u32, u32),
    hour: u32,
    minute: u32,
    composed: u32,
)
    requires
        call_ensures(split_time, (minutes,), parts),
        call_ensures(compose_time, (hour, minute), composed),
    ensures
        parts.0 < 24,
        parts.1 < 60,
        parts.0 * 60 + parts.1 == minutes as int % 1440,
        hour < 24 && minute < 60 ==> composed == hour * 60 + minute,
        hour >= 24 ==> composed as int / 60 == 23,
        minute >= 60 ==> composed as int % 60 == 59,
        hour >= 24 && minute < 60 ==> composed as int % 60 == minute,
        hour < 24 && minute >= 60 ==> composed as int / 60 == hour,
        composed < 1440,
{
}

/// **Law.** A position on a 12-hour clock and its half of the day make the hour
/// that stands there in that half.
pub proof fn a_half_and_a_position_make_an_hour(index: u32, pm: bool, hour: u32)
    requires
        call_ensures(to_hour24, (index, pm), hour),
    ensures
        hour < 24,
        hour as int % 12 == index as int % 12,
        pm <==> hour >= 12,
{
}

/// The number two characters spell.
pub open spec fn two(a: char, b: char) -> int {
    (a as int - '0' as int) * 10 + (b as int - '0' as int)
}

proof fn lemma_digit_text(n: nat)
    requires
        n < 100,
    ensures
        n < 10 ==> crate::text::decimal(n) == seq![(('0' as int + n) as char)],
        n >= 10 ==> crate::text::decimal(n) == seq![
            (('0' as int + n / 10) as char),
            (('0' as int + n % 10) as char),
        ],
        crate::text::two_digits(n) == seq![
            (('0' as int + n / 10) as char),
            (('0' as int + n % 10) as char),
        ],
{
    reveal_with_fuel(crate::text::decimal, 3);
    reveal_strlit("0");
    assert(n < 10 ==> crate::text::decimal(n) =~= seq![(('0' as int + n) as char)]);
    assert(n >= 10 ==> crate::text::decimal(n) =~= seq![
        (('0' as int + n / 10) as char),
        (('0' as int + n % 10) as char),
    ]);
    assert(crate::text::two_digits(n) =~= seq![
        (('0' as int + n / 10) as char),
        (('0' as int + n % 10) as char),
    ]);
}

/// **Law.** On a 24-hour clock a time reads as two digits of its hour, a colon and
/// two digits of its minute.
pub proof fn a_time_reads_on_a_24_hour_clock(minutes: u32, text: String)
    requires
        call_ensures(format_time, (minutes, true), text),
    ensures
        text@.len() == 5,
        two(text@[0], text@[1]) == minutes as int % 1440 / 60,
        text@[2] == ':',
        two(text@[3], text@[4]) == minutes as int % 60,
        is_digit(text@[0]) && is_digit(text@[1]) && is_digit(text@[3]) && is_digit(text@[4]),
{
    reveal_strlit(":");
    let hour = (minutes as int % 1440 / 60) as nat;
    let minute = (minutes as int % 60) as nat;
    lemma_digit_text(hour);
    lemma_digit_text(minute);
}

/// **Law.** On a 12-hour clock a time reads as the hour its position is called,
/// from one to twelve, a colon, two digits of its minute, and `AM` before noon
/// and `PM` after.
pub proof fn a_time_reads_on_a_12_hour_clock(minutes: u32, text: String)
    requires
        call_ensures(format_time, (minutes, false), text),
    ensures
        ({
            let hour = minutes as int % 1440 / 60;
            let n = text@.len() as int;
            let shown = if n == 6 {
                text@[0] as int - '0' as int
            } else {
                two(text@[0], text@[1])
            };
            &&& n == 6 || n == 7
            &&& 1 <= shown <= 12
            &&& shown % 12 == hour % 12
            &&& n == 7 <==> shown >= 10
            &&& text@[n - 5] == ':'
            &&& two(text@[n - 4], text@[n - 3]) == minutes as int % 60
            &&& text@[n - 2] == (if hour < 12 {
                'A'
            } else {
                'P'
            })
            &&& text@[n - 1] == 'M'
        }),
{
    reveal_strlit(":");
    reveal_strlit("AM");
    reveal_strlit("PM");
    let hour = minutes as int % 1440 / 60;
    let minute = (minutes as int % 60) as nat;
    let shown = (if hour % 12 == 0 {
        12
    } else {
        hour % 12
    }) as nat;
    lemma_digit_text(shown);
    lemma_digit_text(minute);
}

/// **Law.** The hour picker has one label for each hour of a 24-hour clock, or for
/// each position of a 12-hour one, where the first reads as twelve; the minute
/// picker has one for each minute.
pub proof fn the_pickers_label_what_they_pick(
    military: bool,
    hours: Vec<String>,
    minutes: Vec<String>,
    index: int,
)
    requires
        call_ensures(hour_labels, (military,), hours),
        call_ensures(minute_labels, (), minutes),
    ensures
        hours.len() == (if military {
            24int
        } else {
            12
        }),
        minutes.len() == 60,
        0 <= index < 60 ==> all_digits(minutes@[index]@) && decimal_value(minutes@[index]@)
            == index && minutes@[index]@.len() == 2,
        0 <= index < hours.len() ==> all_digits(hours@[index]@) && (if military {
            decimal_value(hours@[index]@) == index && hours@[index]@.len() == 2
        } else {
            1 <= decimal_value(hours@[index]@) <= 12 && decimal_value(hours@[index]@) as int % 12
                == index
        }),
{
    reveal_with_fuel(decimal_value, 3);
    let count: nat = if military {
        24
    } else {
        12
    };
    let hour_views = crate::text::string_views(hours@);
    let minute_views = crate::text::string_views(minutes@);
    assert(hour_views.len() == count);
    assert(minute_views.len() == 60);
    if 0 <= index < 60 {
        assert(minute_views[index] == minutes@[index]@);
        lemma_digit_text(index as nat);
        let t = minutes@[index]@;
        assert(t.drop_last() =~= seq![t[0]]);
        assert(seq![t[0]].drop_last() =~= Seq::<char>::empty());
    }
    if 0 <= index < hours.len() {
        assert(hour_views[index] == hours@[index]@);
        let shown = (if military {
            index
        } else if index == 0 {
            12
        } else {
            index
        }) as nat;
        lemma_digit_text(shown);
        let t = hours@[index]@;
        assert(t.len() == 2 ==> t.drop_last() =~= seq![t[0]]);
        assert(seq![t[0]].drop_last() =~= Seq::<char>::empty());
        assert(t.len() == 1 ==> t.drop_last() =~= Seq::<char>::empty());
    }
}

// ---------------------------------------------------------------------------
// Wording
// ---------------------------------------------------------------------------
/// **Law.** On a schedule the status line names the time its state runs out:
/// while the tint is on the window's closing, while it is off its opening,
/// whichever schedule the window came from. Without a schedule it only says which
/// it is.
pub proof fn the_status_line_names_when_its_state_runs_out(
    settings: Settings,
    tint_on: bool,
    sun: Option<SunTimes>,
    military: bool,
    text: String,
    sunset: u32,
    sunrise: u32,
    opening: String,
    closing: String,
)
    requires
        call_ensures(status_text, (&settings, tint_on, sun, military), text),
        call_ensures(format_time, (sunset, military), opening),
        call_ensures(format_time, (sunrise, military), closing),
        settings.schedule == Schedule::Solar && sun is Some ==> sunset == (sun->0).sunset_minutes
            && sunrise == (sun->0).sunrise_minutes,
        !(settings.schedule == Schedule::Solar && sun is Some) ==> sunset
            == settings.sunset_minutes && sunrise == settings.sunrise_minutes,
    ensures
        settings.schedule == Schedule::Manual ==> text@ == (if tint_on {
            "On"@
        } else {
            "Off"@
        }),
        settings.schedule != Schedule::Manual ==> text@ == (if tint_on {
            "On Until "@ + closing@
        } else {
            "Off Until "@ + opening@
        }),
{
}

/// **Law.** The times a status line names are those at which the schedule turns:
/// it wants the tint from the opening on and no longer from the closing on.
pub proof fn the_schedule_turns_at_the_ends_of_its_window(
    settings: Settings,
    sun: Option<SunTimes>,
    window: (u32, u32),
    at_opening: bool,
    at_closing: bool,
)
    requires
        call_ensures(Settings::window, (&settings, sun), Some(window)),
        call_ensures(Settings::schedule_wants_tint_at, (&settings, window.0, sun), at_opening),
        call_ensures(Settings::schedule_wants_tint_at, (&settings, window.1, sun), at_closing),
        window.0 != window.1,
    ensures
        at_opening,
        !at_closing,
{
}

// ---------------------------------------------------------------------------
// Warmth
// ---------------------------------------------------------------------------
/// **Law.** A temperature on the slider's range goes to the track and back
/// unchanged; one off it goes to the nearer end. The coldest temperature is at
/// the start of the track and the warmest at its end.
pub proof fn the_track_and_the_temperature_agree(
    kelvin: u32,
    warmth: u32,
    back: u32,
    position: u32,
    temperature: u32,
)
    requires
        call_ensures(warmth_of, (kelvin,), warmth),
        call_ensures(kelvin_of, (warmth,), back),
        call_ensures(kelvin_of, (position,), temperature),
    ensures
        warmth <= 4000,
        2500 <= temperature <= 6500,
        2500 <= kelvin <= 6500 ==> back == kelvin && warmth == 6500 - kelvin,
        kelvin < 2500 ==> back == 2500 && warmth == 4000,
        kelvin > 6500 ==> back == 6500 && warmth == 0,
        position <= 4000 ==> temperature == 6500 - position,
        position > 4000 ==> temperature == 2500,
{
}

/// **Law.** Letting an override lapse now is letting it lapse at the minute the
/// clock shows. It touches the override alone, and only where there is one.
pub proof fn a_lapse_now_is_at_the_minute_the_clock_shows(
    handler: &mut Option<Store>,
    settings: &mut Settings,
    sun: Option<SunTimes>,
)
    requires
        call_ensures(expire_override, (handler, settings, sun), ()),
    ensures
        *final(settings) == (Settings {
            tint_override: final(settings).tint_override,
            ..*old(settings)
        }),
        final(settings).tint_override == old(settings).tint_override
            || final(settings).tint_override == Override::Auto,
        old(settings).schedule == Schedule::Manual && old(settings).tint_override == Override::On
            ==> final(settings).tint_override == Override::On,
        old(settings).schedule == Schedule::Manual && old(settings).tint_override == Override::Off
            ==> final(settings).tint_override == Override::Auto,
        exists|minute: u32| #[trigger]
            call_ensures(now_minute_of_day, (), minute) && *final(settings) == old(
                settings,
            ).expired_at(minute as int, sun) && handler_view(*final(handler))
                == crate::config::expiry_stored(
                handler_view(*old(handler)),
                *old(settings),
                minute as int,
                sun,
            ),
{
}

/// **Law.** The present moment is the minute the clock shows, with the sun it was
/// given; a reading's minute of the day counts its hours and minutes.
pub proof fn the_present_moment_is_the_clocks(
    sun: Option<SunTimes>,
    moment: Moment,
    now: LocalNow,
    minutes: u32,
)
    requires
        call_ensures(Moment::now, (sun,), moment),
        now.hour < 24,
        now.minute < 60,
        call_ensures(minute_of_day, (now,), minutes),
    ensures
        call_ensures(now_minute_of_day, (), moment.minute_of_day),
        moment.minute_of_day < 1440,
        moment.sun == sun,
        minutes == now.hour * 60 + now.minute,
{
}

} // verus!
