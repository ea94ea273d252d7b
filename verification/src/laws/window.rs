//! What the settings window does and shows.

use crate::brightness::Brightness;
use crate::clock::format_time;
use crate::config::{
    expire_override_at, handler_view, overrides_survive_their_keys, schedules_survive_their_keys,
    status_text, store_brightness, warmth_of, Override, Schedule, Settings, Store,
};
use crate::host::HostSetup;
use crate::screen::{show_current, temperature_label, ScreenChange};
use crate::settings_window::{
    edit_time, time_picker, Bound, Message, SettingsWindow, TimePart, TimePicker, WindowEffect,
    WindowView,
};
use crate::solar::SunTimes;
use crate::text::{decimal_value, lemma_decimal, optional_view};
use crate::tick::{decide, toggle_override, Moment};
use crate::window_view::{
    brightness_label, BackgroundRow, Banner, SetupRow, WindowContent,
};
use vstd::prelude::*;

verus! {

// ---------------------------------------------------------------------------
// Times
// ---------------------------------------------------------------------------
/// **Law.** Picking a part of a time changes that part and leaves the others: the
/// hour that was picked, on a 12-hour clock in the half of the day it was in; the
/// minute that was picked; or the other half of the day.
pub proof fn picking_a_part_leaves_the_others(
    current: u32,
    index: usize,
    military: bool,
    hour: u32,
    minute: u32,
    half: u32,
)
    requires
        current < 1440,
        call_ensures(edit_time, (current, TimePart::Hour(index), military), hour),
        call_ensures(edit_time, (current, TimePart::Minute(index), military), minute),
        call_ensures(edit_time, (current, TimePart::Meridiem(index), military), half),
    ensures
        hour < 1440 && minute < 1440 && half < 1440,
        hour as int % 60 == current as int % 60,
        military && index < 24 ==> hour as int / 60 == index,
        !military && index < 12 ==> hour as int / 60 % 12 == index && (hour >= 720 <==> current
            >= 720),
        minute as int / 60 == current as int / 60,
        index < 60 ==> minute as int % 60 == index,
        half as int % 720 == current as int % 720,
        half >= 720 <==> index == 1,
{
}

/// **Law.** A picker stands at the hour and the minute of its time, and on a
/// 12-hour clock at its half of the day.
pub proof fn a_picker_stands_at_its_time(
    bound: Bound,
    minutes: u32,
    military: bool,
    picker: TimePicker,
)
    requires
        minutes < 1440,
        call_ensures(time_picker, (bound, minutes, military), picker),
    ensures
        picker.bound == bound,
        picker.minute == minutes as int % 60,
        military ==> picker.hour == minutes as int / 60 && picker.meridiem is None,
        !military ==> picker.hour == minutes as int / 60 % 12 && picker.meridiem == Some(
            if minutes >= 720 {
                1usize
            } else {
                0usize
            },
        ),
{
}

// ---------------------------------------------------------------------------
// Messages
// ---------------------------------------------------------------------------
/// **Law.** The window opens on what the store holds and what was found, with both
/// sliders there and nothing under way. It turns background running off exactly
/// where the applet is known to be on a panel.
pub proof fn the_window_opens_on_the_store(
    handler: Option<Store>,
    military: bool,
    setup: HostSetup,
    applet_present: Option<bool>,
    autostart: bool,
    opened: (SettingsWindow, Vec<WindowEffect>),
    settings: Settings,
)
    requires
        call_ensures(
            SettingsWindow::init,
            (&handler, military, setup, applet_present, autostart),
            opened,
        ),
        call_ensures(Settings::load_from, (&handler,), settings),
    ensures
        opened.0.settings == settings,
        opened.0.temperature == settings.temperature,
        opened.0.brightness == settings.brightness,
        !opened.0.temperature_dragging && !opened.0.brightness_dragging && !opened.0.setup_busy,
        opened.0.military == military,
        opened.0.setup == setup,
        opened.0.applet_present == applet_present,
        opened.0.autostart == autostart,
        opened.0.setup_error is None && opened.0.autostart_error is None
            && opened.0.schedule_revert is None,
        applet_present == Some(true) && autostart ==> opened.1@ == seq![
            WindowEffect::SetAutostart(false),
        ],
        !(applet_present == Some(true) && autostart) ==> opened.1@.len() == 0,
{
}

/// **Law.** Picking a schedule stores it at once where the host is ready or none
/// was picked. Otherwise it is shown but not stored, the setup is run, and the
/// schedule before it is kept to fall back to.
pub proof fn picking_a_schedule_stores_it_or_runs_the_setup(
    window: &mut SettingsWindow,
    handler: &mut Option<Store>,
    index: usize,
    moment: Moment,
    effects: Vec<WindowEffect>,
    before: Settings,
    after: Settings,
)
    requires
        index < 3,
        call_ensures(
            SettingsWindow::update,
            (window, handler, Message::ScheduleSelected(index), moment),
            effects,
        ),
        call_ensures(Settings::load_from, (&*old(handler),), before),
        call_ensures(Settings::load_from, (&*final(handler),), after),
    ensures
        ({
            let chosen = if index == 0 {
                Schedule::Manual
            } else if index == 1 {
                Schedule::Solar
            } else {
                Schedule::Custom
            };
            let shown = Settings { schedule: chosen, ..old(window).settings };
            if chosen == Schedule::Manual || old(window).setup == HostSetup::Ready {
                &&& final(window)@ == (WindowView { settings: shown, ..old(window)@ })
                &&& *old(handler) is Some ==> after == (Settings { schedule: chosen, ..before })
                &&& effects@.len() == 0
            } else {
                &&& final(window)@ == (WindowView {
                    settings: shown,
                    setup_busy: true,
                    setup_error: None,
                    schedule_revert: Some(old(window).settings.schedule),
                    ..old(window)@
                })
                &&& handler_view(*final(handler)) == handler_view(*old(handler))
                &&& effects@ == seq![WindowEffect::RunHostSetup]
            }
        }),
{
    schedules_survive_their_keys(Schedule::ALL[index as int]);
}

/// **Law.** Once the setup ended, a schedule that waited for it is stored if the
/// host is ready and taken back if it is not; what went wrong is kept to be shown.
pub proof fn a_waiting_schedule_is_stored_or_taken_back(
    window: &mut SettingsWindow,
    handler: &mut Option<Store>,
    error: Option<String>,
    setup: HostSetup,
    moment: Moment,
    effects: Vec<WindowEffect>,
    before: Settings,
    after: Settings,
)
    requires
        call_ensures(
            SettingsWindow::update,
            (window, handler, (Message::HostSetupFinished { error, setup }), moment),
            effects,
        ),
        call_ensures(Settings::load_from, (&*old(handler),), before),
        call_ensures(Settings::load_from, (&*final(handler),), after),
    ensures
        ({
            let waiting = old(window).schedule_revert is Some;
            let landed = setup == HostSetup::Ready;
            let shown = if waiting && !landed {
                Settings { schedule: old(window).schedule_revert->0, ..old(window).settings }
            } else {
                old(window).settings
            };
            &&& final(window)@ == (WindowView {
                settings: shown,
                setup,
                setup_busy: false,
                setup_error: optional_view(error),
                schedule_revert: None,
                ..old(window)@
            })
            &&& waiting && landed && *old(handler) is Some ==> after == (Settings {
                schedule: old(window).settings.schedule,
                ..before
            })
            &&& !(waiting && landed) ==> handler_view(*final(handler)) == handler_view(
                *old(handler),
            )
            &&& effects@.len() == 0
        }),
{
    schedules_survive_their_keys(old(window).settings.schedule);
}

/// **Law.** Picking a time sets and stores that end of the schedule, and only it.
pub proof fn picking_a_time_sets_its_end(
    window: &mut SettingsWindow,
    handler: &mut Option<Store>,
    bound: Bound,
    part: TimePart,
    moment: Moment,
    effects: Vec<WindowEffect>,
    edited: u32,
    before: Settings,
    after: Settings,
)
    requires
        call_ensures(
            SettingsWindow::update,
            (window, handler, Message::TimeSelected(bound, part), moment),
            effects,
        ),
        call_ensures(
            edit_time,
            (
                if bound == Bound::Sunset {
                    old(window).settings.sunset_minutes
                } else {
                    old(window).settings.sunrise_minutes
                },
                part,
                old(window).military,
            ),
            edited,
        ),
        call_ensures(Settings::load_from, (&*old(handler),), before),
        call_ensures(Settings::load_from, (&*final(handler),), after),
    ensures
        effects@.len() == 0,
        bound == Bound::Sunset ==> final(window)@ == (WindowView {
            settings: Settings { sunset_minutes: edited, ..old(window).settings },
            ..old(window)@
        }),
        bound == Bound::Sunrise ==> final(window)@ == (WindowView {
            settings: Settings { sunrise_minutes: edited, ..old(window).settings },
            ..old(window)@
        }),
        *old(handler) is Some && bound == Bound::Sunset ==> after == (Settings {
            sunset_minutes: edited,
            ..before
        }),
        *old(handler) is Some && bound == Bound::Sunrise ==> after == (Settings {
            sunrise_minutes: edited,
            ..before
        }),
{
}

/// **Law.** Flipping the window's toggle sets the override that flipping means,
/// here and in the store, and asks the screen for the slider's temperature and the
/// set brightness, or for none. Nothing else changes.
pub proof fn the_windows_toggle_sets_the_override(
    window: &mut SettingsWindow,
    handler: &mut Option<Store>,
    on: bool,
    moment: Moment,
    effects: Vec<WindowEffect>,
    value: Override,
    before: Settings,
    after: Settings,
)
    requires
        call_ensures(
            SettingsWindow::update,
            (window, handler, Message::Toggle(on), moment),
            effects,
        ),
        call_ensures(toggle_override, (&old(window).settings, on, moment), value),
        call_ensures(Settings::load_from, (&*old(handler),), before),
        call_ensures(Settings::load_from, (&*final(handler),), after),
    ensures
        final(window)@ == (WindowView {
            settings: Settings { tint_override: value, ..old(window).settings },
            ..old(window)@
        }),
        *old(handler) is Some ==> after == (Settings { tint_override: value, ..before }),
        effects@ == seq![
            WindowEffect::Screen(
                ScreenChange::Toggle {
                    state: if on {
                        Some(old(window).temperature)
                    } else {
                        None
                    },
                    brightness: old(window).settings.brightness,
                    previous: old(window).settings.tint_override,
                },
            ),
        ],
{
    overrides_survive_their_keys(value);
}

/// **Law.** A toggle that did not land is put back, here and in the store; one that
/// did is left alone. Either way the host's setup is shown as it was found.
pub proof fn the_window_puts_a_failed_toggle_back(
    window: &mut SettingsWindow,
    handler: &mut Option<Store>,
    previous: Override,
    applied: bool,
    setup: HostSetup,
    moment: Moment,
    effects: Vec<WindowEffect>,
    before: Settings,
    after: Settings,
)
    requires
        call_ensures(
            SettingsWindow::update,
            (window, handler, (Message::ToggleFinished { previous, applied, setup }), moment),
            effects,
        ),
        call_ensures(Settings::load_from, (&*old(handler),), before),
        call_ensures(Settings::load_from, (&*final(handler),), after),
    ensures
        effects@.len() == 0,
        applied ==> final(window)@ == (WindowView { setup, ..old(window)@ }) && after == before,
        !applied ==> final(window)@ == (WindowView {
            setup,
            settings: Settings { tint_override: previous, ..old(window).settings },
            ..old(window)@
        }),
        !applied && *old(handler) is Some ==> after == (Settings {
            tint_override: previous,
            ..before
        }),
{
    overrides_survive_their_keys(previous);
}

/// **Law.** Dragging a slider moves that slider and marks it as dragged, and does
/// nothing else.
pub proof fn dragging_a_slider_moves_it_alone(
    window: &mut SettingsWindow,
    handler: &mut Option<Store>,
    kelvin: u32,
    moment: Moment,
    effects: Vec<WindowEffect>,
    other: &mut SettingsWindow,
    place: &mut Option<Store>,
    value: Brightness,
    others: Vec<WindowEffect>,
)
    requires
        call_ensures(
            SettingsWindow::update,
            (window, handler, Message::TemperatureChanged(kelvin), moment),
            effects,
        ),
        call_ensures(
            SettingsWindow::update,
            (other, place, Message::BrightnessChanged(value), moment),
            others,
        ),
    ensures
        final(window)@ == (WindowView {
            temperature: kelvin,
            temperature_dragging: true,
            ..old(window)@
        }),
        final(other)@ == (WindowView { brightness: value, brightness_dragging: true, ..old(other)@ }),
        handler_view(*final(handler)) == handler_view(*old(handler)),
        handler_view(*final(place)) == handler_view(*old(place)),
        effects@.len() == 0 && others@.len() == 0,
{
}

/// **Law.** Releasing the temperature slider sets and stores where it stands, and
/// pushes it to the screen exactly where the tint is on.
pub proof fn releasing_the_temperature_stores_it(
    window: &mut SettingsWindow,
    handler: &mut Option<Store>,
    moment: Moment,
    effects: Vec<WindowEffect>,
    before: Settings,
    after: Settings,
    on: bool,
)
    requires
        call_ensures(
            SettingsWindow::update,
            (window, handler, Message::TemperatureCommitted, moment),
            effects,
        ),
        call_ensures(Settings::load_from, (&*old(handler),), before),
        call_ensures(Settings::load_from, (&*final(handler),), after),
        call_ensures(
            Settings::tint_on_at,
            (&old(window).settings, moment.minute_of_day, moment.sun),
            on,
        ),
    ensures
        final(window)@ == (WindowView {
            temperature_dragging: false,
            settings: Settings { temperature: old(window).temperature, ..old(window).settings },
            ..old(window)@
        }),
        *old(handler) is Some ==> after == (Settings {
            temperature: old(window).temperature,
            ..before
        }),
        !on ==> effects@.len() == 0,
        on ==> effects@ == seq![
            WindowEffect::Screen(
                ScreenChange::Force {
                    state: Some(old(window).temperature),
                    brightness: old(window).settings.brightness,
                },
            ),
        ],
{
}

/// **Law.** Releasing the brightness slider sets and stores where it was dragged
/// to, or where it rests if it was not moved, and pushes it to the screen exactly
/// where the tint is on.
pub proof fn releasing_the_brightness_stores_it(
    window: &mut SettingsWindow,
    handler: &mut Option<Store>,
    resting: Brightness,
    moment: Moment,
    effects: Vec<WindowEffect>,
    copy: &mut Option<Store>,
    on: bool,
)
    requires
        call_ensures(
            SettingsWindow::update,
            (window, handler, Message::BrightnessCommitted(resting), moment),
            effects,
        ),
        handler_view(*old(copy)) == handler_view(*old(handler)),
        call_ensures(
            store_brightness,
            (
                copy,
                if old(window).brightness_dragging {
                    old(window).brightness
                } else {
                    resting
                },
            ),
            (),
        ),
        call_ensures(
            Settings::tint_on_at,
            (&old(window).settings, moment.minute_of_day, moment.sun),
            on,
        ),
    ensures
        ({
            let value = if old(window).brightness_dragging {
                old(window).brightness
            } else {
                resting
            };
            &&& final(window)@ == (WindowView {
                brightness: value,
                brightness_dragging: false,
                settings: Settings { brightness: value, ..old(window).settings },
                ..old(window)@
            })
            &&& handler_view(*final(handler)) == handler_view(*final(copy))
            &&& !on ==> effects@.len() == 0
            &&& on ==> effects@ == seq![
                WindowEffect::Screen(
                    ScreenChange::Force {
                        state: Some(old(window).settings.temperature),
                        brightness: value,
                    },
                ),
            ]
        }),
{
}

/// **Law.** A change in the store replaces the window's settings, moves each slider
/// that is not being dragged, and puts them on the screen; nothing is stored.
pub proof fn the_window_shows_a_changed_store(
    window: &mut SettingsWindow,
    handler: &mut Option<Store>,
    settings: Settings,
    moment: Moment,
    effects: Vec<WindowEffect>,
    change: ScreenChange,
)
    requires
        call_ensures(
            SettingsWindow::update,
            (window, handler, Message::ConfigUpdated(settings), moment),
            effects,
        ),
        call_ensures(show_current, (&settings, moment), change),
    ensures
        handler_view(*final(handler)) == handler_view(*old(handler)),
        final(window)@ == (WindowView {
            settings,
            temperature: if old(window).temperature_dragging {
                old(window).temperature
            } else {
                settings.temperature
            },
            brightness: if old(window).brightness_dragging {
                old(window).brightness
            } else {
                settings.brightness
            },
            ..old(window)@
        }),
        effects@ == seq![WindowEffect::Screen(change)],
{
}

/// **Law.** With no setup in flight the window's tick starts from what the store
/// holds: what it ends with and stores is what the tick's decisions make of that,
/// and it puts that on the screen. It notes what was found, and turns background
/// running off exactly where the applet is known to be on a panel.
pub proof fn the_windows_tick_decides_over_the_store(
    window: &mut SettingsWindow,
    handler: &mut Option<Store>,
    setup: HostSetup,
    applet_present: Option<bool>,
    autostart: bool,
    moment: Moment,
    effects: Vec<WindowEffect>,
    other: &mut Option<Store>,
    settings: &mut Settings,
    stored: Settings,
    change: ScreenChange,
)
    requires
        !old(window).setup_busy,
        call_ensures(
            SettingsWindow::update,
            (window, handler, (Message::Tick { setup, applet_present, autostart }), moment),
            effects,
        ),
        call_ensures(Settings::load_from, (&*old(handler),), stored),
        handler_view(*old(other)) == handler_view(*old(handler)),
        *old(settings) == stored,
        call_ensures(decide, (other, settings, setup, moment), ()),
        call_ensures(show_current, (&*final(settings), moment), change),
    ensures
        final(window)@ == (WindowView {
            settings: *final(settings),
            temperature: if old(window).temperature_dragging {
                old(window).temperature
            } else {
                stored.temperature
            },
            brightness: if old(window).brightness_dragging {
                old(window).brightness
            } else {
                stored.brightness
            },
            setup,
            applet_present,
            autostart,
            ..old(window)@
        }),
        handler_view(*final(handler)) == handler_view(*final(other)),
        effects@ == (if applet_present == Some(true) && autostart {
            seq![WindowEffect::Screen(change), WindowEffect::SetAutostart(false)]
        } else {
            seq![WindowEffect::Screen(change)]
        }),
{
}

/// **Law.** While a setup is in flight the window's tick leaves the schedule on
/// show, the sliders and the setup row alone: it only lets an override lapse.
pub proof fn the_windows_tick_waits_for_a_setup(
    window: &mut SettingsWindow,
    handler: &mut Option<Store>,
    setup: HostSetup,
    applet_present: Option<bool>,
    autostart: bool,
    moment: Moment,
    effects: Vec<WindowEffect>,
    other: &mut Option<Store>,
    settings: &mut Settings,
    change: ScreenChange,
)
    requires
        old(window).setup_busy,
        call_ensures(
            SettingsWindow::update,
            (window, handler, (Message::Tick { setup, applet_present, autostart }), moment),
            effects,
        ),
        handler_view(*old(other)) == handler_view(*old(handler)),
        *old(settings) == old(window).settings,
        call_ensures(
            expire_override_at,
            (other, settings, moment.minute_of_day, moment.sun),
            (),
        ),
        call_ensures(show_current, (&*final(settings), moment), change),
    ensures
        final(window)@ == (WindowView {
            settings: *final(settings),
            applet_present,
            autostart,
            ..old(window)@
        }),
        final(window).settings.schedule == old(window).settings.schedule,
        handler_view(*final(handler)) == handler_view(*final(other)),
        effects@ == (if applet_present == Some(true) && autostart {
            seq![WindowEffect::Screen(change), WindowEffect::SetAutostart(false)]
        } else {
            seq![WindowEffect::Screen(change)]
        }),
{
}

/// **Law.** The buttons start what they say, and what came of the background
/// switch is shown.
pub proof fn the_buttons_start_what_they_say(
    window: &mut SettingsWindow,
    handler: &mut Option<Store>,
    message: Message,
    moment: Moment,
    effects: Vec<WindowEffect>,
)
    requires
        call_ensures(SettingsWindow::update, (window, handler, message, moment), effects),
        message is RunHostSetup || message is SetAutostart || message is AutostartSet || message
            is OpenAppletSettings,
    ensures
        handler_view(*final(handler)) == handler_view(*old(handler)),
        message is RunHostSetup ==> effects@ == seq![WindowEffect::RunHostSetup] && final(window)@
            == (WindowView {
            setup_busy: true,
            setup_error: None,
            schedule_revert: None,
            ..old(window)@
        }),
        message matches Message::SetAutostart(on) ==> effects@ == seq![
            WindowEffect::SetAutostart(on),
        ] && final(window)@ == old(window)@,
        message is OpenAppletSettings ==> effects@ == seq![WindowEffect::OpenAppletSettings]
            && final(window)@ == old(window)@,
        message matches Message::AutostartSet { error, autostart } ==> effects@.len() == 0
            && final(window)@ == (WindowView {
            autostart,
            autostart_error: optional_view(error),
            ..old(window)@
        }),
{
}

// ---------------------------------------------------------------------------
// What it shows
// ---------------------------------------------------------------------------
/// A description with what went wrong after it.
pub open spec fn explained(text: Seq<char>, error: Option<Seq<char>>) -> Seq<char> {
    match error {
        Some(e) => text + "\n\nThat didn't work: "@ + e + "."@,
        None => text,
    }
}

/// **Law.** The setup is offered exactly while the host is not ready, worded for a
/// first setup or an update, with what went wrong last time; its button cannot be
/// pressed while a setup runs.
pub proof fn the_setup_is_offered_until_ready(window: SettingsWindow, row: Option<SetupRow>)
    requires
        call_ensures(SettingsWindow::host_setup_row, (&window,), row),
    ensures
        row is Some <==> window.setup != HostSetup::Ready,
        row matches Some(r) ==> {
            &&& r.enabled <==> !window.setup_busy
            &&& window.setup_busy ==> r.button@ == "Working…"@
            &&& window.setup == HostSetup::Needed ==> {
                &&& r.title@ == "Set up Night Light"@
                &&& r.description@ == explained(
                    "Turning on the night light needs a one-time system permission."@,
                    optional_view(window.setup_error),
                )
                &&& !window.setup_busy ==> r.button@ == "Set Up"@
            }
            &&& window.setup == HostSetup::Outdated ==> {
                &&& r.title@ == "Update the installed helper"@
                &&& r.description@ == explained(
                    "The helper Night Light installed was put there by an older version and no longer understands this one. Running the setup again replaces it."@,
                    optional_view(window.setup_error),
                )
                &&& !window.setup_busy ==> r.button@ == "Update"@
            }
        },
{
}

/// **Law.** A schedule that nothing keeps is pointed out exactly where one is set,
/// the applet is known to be off every panel and background running is off. The
/// background switch is there exactly where it is on or the applet is known to be
/// off, and says it is not needed exactly where the applet is known to be there.
/// Background running is retired exactly where it is on and the applet is there.
pub proof fn who_keeps_the_schedule_is_shown(
    window: SettingsWindow,
    lacks: bool,
    banner: Option<Banner>,
    row: Option<BackgroundRow>,
    retire: bool,
)
    requires
        call_ensures(SettingsWindow::no_scheduler, (&window,), lacks),
        call_ensures(SettingsWindow::no_scheduler_banner, (&window,), banner),
        call_ensures(SettingsWindow::background_section, (&window,), row),
        call_ensures(SettingsWindow::retire_redundant_background, (&window,), retire),
    ensures
        lacks <==> window.settings.schedule != Schedule::Manual && window.applet_present == Some(
            false,
        ) && !window.autostart,
        banner is Some <==> lacks,
        banner matches Some(b) ==> {
            &&& b.title@ == "Your schedule isn't running"@
            &&& b.description@
                == "Night Light keeps to its schedule through the applet on your panel, or while this window is open. Add the applet, or let it run in the background instead."@
            &&& b.add_to_panel@ == "Add to Panel"@
            &&& b.run_in_background@ == "Run in Background"@
        },
        row is Some <==> window.autostart || window.applet_present == Some(false),
        row matches Some(r) ==> {
            &&& r.on == window.autostart
            &&& r.title@ == "Run in Background"@
            &&& r.section@ == "Background"@
            &&& window.applet_present == Some(true) ==> r.description@ == explained(
                "Not needed: the Night Light applet is on your panel and already keeps the schedule. Turning this off stops the duplicate background process."@,
                optional_view(window.autostart_error),
            )
            &&& window.applet_present != Some(true) ==> r.description@ == explained(
                "Keeps the schedule running when this window is closed, and starts again at each login."@,
                optional_view(window.autostart_error),
            )
        },
        retire <==> window.applet_present == Some(true) && window.autostart,
{
}

/// **Law.** The summary names the window in force from its opening to its closing,
/// or only the opening where it covers the day. A solar schedule without sun times
/// says why instead, and shows the pickers; so does a custom one. Without a
/// schedule there is no summary.
pub proof fn the_summary_names_the_window_in_force(
    window: SettingsWindow,
    sun: Option<SunTimes>,
    located: bool,
    line: Option<String>,
    typed: bool,
    sunset: u32,
    sunrise: u32,
    from: String,
    to: String,
)
    requires
        call_ensures(SettingsWindow::schedule_summary, (&window, sun, located), line),
        call_ensures(SettingsWindow::uses_typed_times, (&window, sun), typed),
        window.settings.schedule == Schedule::Solar && sun is Some ==> sunset == (
        sun->0).sunset_minutes && sunrise == (sun->0).sunrise_minutes,
        !(window.settings.schedule == Schedule::Solar && sun is Some) ==> sunset
            == window.settings.sunset_minutes && sunrise == window.settings.sunrise_minutes,
        call_ensures(format_time, (sunset, window.military), from),
        call_ensures(format_time, (sunrise, window.military), to),
    ensures
        ({
            let schedule = window.settings.schedule;
            let lost = schedule == Schedule::Solar && sun is None;
            &&& typed <==> schedule == Schedule::Custom || lost
            &&& line is None <==> schedule == Schedule::Manual
            &&& lost && located ==> (line->0)@
                == "The sun doesn't set here today — using the times below"@
            &&& lost && !located ==> (line->0)@
                == "No location for your time zone — using the times below"@
            &&& schedule != Schedule::Manual && !lost && sunset != sunrise ==> (line->0)@
                == "Warm from "@ + from@ + " to "@ + to@
            &&& schedule != Schedule::Manual && !lost && sunset == sunrise ==> (line->0)@
                == "Warm all day from "@ + from@
        }),
{
}

/// **Law.** A brightness label spells out the percentage, with its sign.
pub proof fn a_label_spells_out_the_brightness(percent: i32, label: String)
    requires
        call_ensures(brightness_label, (percent,), label),
    ensures
        ({
            let n = label@.len() as int;
            let from: int = if percent < 0 {
                13
            } else {
                12
            };
            &&& n > from + 1
            &&& label@.take(12) == "Brightness: "@
            &&& label@[n - 1] == '%'
            &&& percent < 0 ==> label@[12] == '-'
            &&& decimal_value(label@.subrange(from, n - 1)) == (if percent < 0 {
                -(percent as int)
            } else {
                percent as int
            })
        }),
{
    reveal_strlit("Brightness: ");
    reveal_strlit("%");
    reveal_strlit("-");
    let size = (if percent < 0 {
        -(percent as int)
    } else {
        percent as int
    }) as nat;
    lemma_decimal(size);
    let digits = crate::text::decimal(size);
    let n = label@.len() as int;
    assert(label@.take(12) =~= "Brightness: "@);
    if percent < 0 {
        assert(label@ =~= "Brightness: "@ + ("-"@ + digits) + "%"@);
        assert(label@.subrange(13, n - 1) =~= digits);
    } else {
        assert(label@ =~= "Brightness: "@ + digits + "%"@);
        assert(label@.subrange(12, n - 1) =~= digits);
    }
}

/// **Law.** The window shows the tint and the status line that goes with it, both
/// sliders' values with the temperature's place on the track, the schedule that is
/// set, and the pickers, from opening to closing, exactly where their times are in
/// force.
pub proof fn the_window_shows_its_settings(
    window: SettingsWindow,
    moment: Moment,
    located: bool,
    percent: i32,
    content: WindowContent,
    on: bool,
    status: String,
    label: String,
    warmth: u32,
    dimmed: String,
    index: usize,
    summary: Option<String>,
    typed: bool,
    from: TimePicker,
    to: TimePicker,
    offer: Option<SetupRow>,
    banner: Option<Banner>,
    switch: Option<BackgroundRow>,
)
    requires
        call_ensures(
            SettingsWindow::view_content,
            (&window, moment, located, percent),
            content,
        ),
        call_ensures(
            Settings::tint_on_at,
            (&window.settings, moment.minute_of_day, moment.sun),
            on,
        ),
        call_ensures(status_text, (&window.settings, on, moment.sun, window.military), status),
        call_ensures(temperature_label, (window.temperature,), label),
        call_ensures(warmth_of, (window.temperature,), warmth),
        call_ensures(brightness_label, (percent,), dimmed),
        call_ensures(Schedule::index, (window.settings.schedule,), index),
        call_ensures(SettingsWindow::schedule_summary, (&window, moment.sun, located), summary),
        call_ensures(SettingsWindow::uses_typed_times, (&window, moment.sun), typed),
        call_ensures(
            time_picker,
            (Bound::Sunset, window.settings.sunset_minutes, window.military),
            from,
        ),
        call_ensures(
            time_picker,
            (Bound::Sunrise, window.settings.sunrise_minutes, window.military),
            to,
        ),
        call_ensures(SettingsWindow::host_setup_row, (&window,), offer),
        call_ensures(SettingsWindow::no_scheduler_banner, (&window,), banner),
        call_ensures(SettingsWindow::background_section, (&window,), switch),
    ensures
        content.tint_on == on,
        content.status@ == status@,
        content.temperature@ == label@,
        content.warmth == warmth,
        content.brightness@ == dimmed@,
        content.schedule == index,
        optional_view(content.summary) == optional_view(summary),
        typed ==> content.pickers == Some((from, to)),
        !typed ==> content.pickers is None,
        content.setup is Some <==> offer is Some,
        content.setup matches Some(r) ==> r.title@ == (offer->0).title@ && r.description@ == (
        offer->0).description@ && r.button@ == (offer->0).button@ && r.enabled == (
        offer->0).enabled,
        content.banner is Some <==> banner is Some,
        content.banner matches Some(b) ==> b.title@ == (banner->0).title@ && b.description@ == (
        banner->0).description@ && b.add_to_panel@ == (banner->0).add_to_panel@
            && b.run_in_background@ == (banner->0).run_in_background@,
        content.background is Some <==> switch is Some,
        content.background matches Some(r) ==> r.section@ == (switch->0).section@ && r.title@ == (
        switch->0).title@ && r.description@ == (switch->0).description@ && r.on == (switch->0).on,
        content.brightness_note@ == "Dims the screen while the night light is on"@,
        content.note@ == "Night light changes may briefly flicker the screen"@,
        content.title@ == "Night Light Settings"@,
        content.ends.0@ == "Less warm"@,
        content.ends.1@ == "More warm"@,
{
    match window.settings.schedule {
        Schedule::Manual => {},
        Schedule::Solar => {},
        Schedule::Custom => {},
    }
}

} // verus!
