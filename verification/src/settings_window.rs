//! The settings window: its state, and what it does about each thing that
//! happens to it.

use crate::applet::{self, NightLightApplet};
use crate::brightness::Brightness;
use crate::clock::{
    compose_and_split_round_trip, compose_time, hour24, minutes_of, split_and_compose_round_trip,
    split_time, to_hour24, MINUTES_PER_DAY,
};
use crate::config::{
    a_stored_value_reads_back, after_write, expire_override_at, expiry_stored, handler_view, loaded,
    resync, store_brightness, store_override, store_schedule, store_sunrise_minutes,
    store_sunset_minutes, store_temperature, ConfigWrite, Override, Schedule, Settings, Store,
    StoreView,
};
use crate::host::HostSetup;
use crate::screen::{apply_if_tinted, pushing, show_current, showing, ScreenChange};
use crate::text::optional_view;
use crate::tick::{
    decide, decided_settings, decided_store, deciding_keeps_the_snapshot_in_step, override_for,
    the_toggle_means_what_it_shows, toggle_override, Moment,
};
use vstd::prelude::*;

verus! {

// ---------------------------------------------------------------------------
// Picking a time
// ---------------------------------------------------------------------------
/// Which end of the schedule a time-picker edit applies to.
#[derive(Clone, Copy, Debug, PartialEq, Eq, Structural)]
pub enum Bound {
    /// When the tint turns on.
    Sunset,
    /// When the tint turns off.
    Sunrise,
}

/// The part of a time a picker dropdown changed, carrying the selected index.
#[derive(Clone, Copy, Debug, PartialEq, Eq, Structural)]
pub enum TimePart {
    /// Index into the hour labels: the hour itself in 24-hour mode, or the
    /// 12-hour position otherwise, where 0 reads as "12".
    Hour(usize),
    /// Index into the minute labels, which is the minute itself.
    Minute(usize),
    /// Index into [`MERIDIEM_OPTIONS`].
    Meridiem(usize),
}

/// Labels for the AM/PM dropdown.
pub const MERIDIEM_OPTIONS: [&'static str; 2] = ["AM", "PM"];

/// One more than the largest number a picked index keeps.
pub const INDEX_LIMIT: u64 = 0x1_0000_0000;

/// A picked index as a part of a time.
pub open spec fn picked(index: usize) -> int {
    index as int % INDEX_LIMIT as int
}

/// A time with one part of it picked anew, the others left alone.
pub open spec fn time_with(current: int, part: TimePart, military: bool) -> int {
    let hour = current % MINUTES_PER_DAY as int / 60;
    let minute = current % 60;
    match part {
        TimePart::Hour(index) => minutes_of(
            if military {
                picked(index)
            } else {
                hour24(picked(index), hour >= 12)
            },
            minute,
        ),
        TimePart::Minute(index) => minutes_of(hour, picked(index)),
        TimePart::Meridiem(index) => minutes_of(hour24(hour % 12, index == 1), minute),
    }
}

/// A picked index as a part of a time.
fn pick(index: usize) -> (value: u32)
    ensures
        value == picked(index),
{
    (index as u64 % INDEX_LIMIT) as u32
}

/// Folds a single dropdown selection back into a minutes-since-midnight time,
/// leaving the parts the user didn't touch alone.
pub fn edit_time(current: u32, part: TimePart, military: bool) -> (minutes: u32)
    ensures
        minutes == time_with(current as int, part, military),
        minutes < MINUTES_PER_DAY,
{
    let (hour, minute) = split_time(current);
    match part {
        TimePart::Hour(index) => {
            let hour = if military {
                pick(index)
            } else {
                to_hour24(pick(index), hour >= 12)
            };
            compose_time(hour, minute)
        },
        TimePart::Minute(index) => compose_time(hour, pick(index)),
        TimePart::Meridiem(index) => compose_time(to_hour24(hour % 12, index == 1), minute),
    }
}

/// The positions of a time picker's dropdowns.
#[derive(Clone, Copy, Debug, PartialEq, Eq, Structural)]
pub struct TimePicker {
    /// Which end of the schedule it picks.
    pub bound: Bound,
    pub hour: usize,
    pub minute: usize,
    /// Only on a 12-hour clock.
    pub meridiem: Option<usize>,
}

/// The positions that show a time.
pub open spec fn picker_for(bound: Bound, minutes: int, military: bool) -> TimePicker {
    let hour = minutes % MINUTES_PER_DAY as int / 60;
    TimePicker {
        bound,
        hour: if military {
            hour as usize
        } else {
            (hour % 12) as usize
        },
        minute: (minutes % 60) as usize,
        meridiem: if military {
            None
        } else {
            Some(
                if hour >= 12 {
                    1
                } else {
                    0
                },
            )
        },
    }
}

/// The hour and minute dropdowns, and on a 12-hour clock the AM/PM one, that
/// pick one end of the schedule to the minute.
pub fn time_picker(bound: Bound, minutes: u32, military: bool) -> (picker: TimePicker)
    ensures
        picker == picker_for(bound, minutes as int, military),
{
    let (hour, minute) = split_time(minutes);
    let hour_index = if military {
        hour as usize
    } else {
        (hour % 12) as usize
    };
    let meridiem: Option<usize> = if military {
        None
    } else if hour >= 12 {
        Some(1)
    } else {
        Some(0)
    };
    TimePicker { bound, hour: hour_index, minute: minute as usize, meridiem }
}

/// What a picker shows for an hour and a minute.
proof fn lemma_picker(bound: Bound, hour: int, minute: int, military: bool)
    requires
        0 <= hour < 24,
        0 <= minute < 60,
    ensures
        ({
            let picker = picker_for(bound, minutes_of(hour, minute), military);
            &&& picker.bound == bound
            &&& picker.hour == (if military {
                hour
            } else {
                hour % 12
            })
            &&& picker.minute == minute
            &&& picker.meridiem == (if military {
                None
            } else if hour >= 12 {
                Some(1usize)
            } else {
                Some(0usize)
            })
        }),
{
    compose_and_split_round_trip(hour, minute);
}

/// **Law.** A picker shows the hour that was picked in it, and nothing else in it
/// moves.
pub proof fn a_picked_hour_is_shown(bound: Bound, current: u32, index: usize, military: bool)
    requires
        current < MINUTES_PER_DAY,
        index < if military {
            24int
        } else {
            12
        },
    ensures
        picker_for(
            bound,
            time_with(current as int, TimePart::Hour(index), military),
            military,
        ) == (TimePicker { hour: index, ..picker_for(bound, current as int, military) }),
{
    let hour = current as int / 60;
    let minute = current as int % 60;
    split_and_compose_round_trip(current as int);
    lemma_picker(bound, hour, minute, military);
    assert(picked(index) == index);
    let edited = if military {
        index as int
    } else {
        hour24(index as int, hour >= 12)
    };
    lemma_picker(bound, edited, minute, military);
}

/// **Law.** A picker shows the minute that was picked in it, and nothing else in
/// it moves.
pub proof fn a_picked_minute_is_shown(bound: Bound, current: u32, index: usize, military: bool)
    requires
        current < MINUTES_PER_DAY,
        index < 60,
    ensures
        picker_for(
            bound,
            time_with(current as int, TimePart::Minute(index), military),
            military,
        ) == (TimePicker { minute: index, ..picker_for(bound, current as int, military) }),
{
    let hour = current as int / 60;
    let minute = current as int % 60;
    split_and_compose_round_trip(current as int);
    lemma_picker(bound, hour, minute, military);
    assert(picked(index) == index);
    lemma_picker(bound, hour, index as int, military);
}

/// **Law.** On a 12-hour clock a picker shows the half of the day that was picked
/// in it, and nothing else in it moves.
pub proof fn a_picked_half_is_shown(bound: Bound, current: u32, index: usize)
    requires
        current < MINUTES_PER_DAY,
        index < 2,
    ensures
        picker_for(
            bound,
            time_with(current as int, TimePart::Meridiem(index), false),
            false,
        ) == (TimePicker { meridiem: Some(index), ..picker_for(bound, current as int, false) }),
{
    let hour = current as int / 60;
    let minute = current as int % 60;
    split_and_compose_round_trip(current as int);
    lemma_picker(bound, hour, minute, false);
    lemma_picker(bound, hour24(hour % 12, index == 1), minute, false);
}

// ---------------------------------------------------------------------------
// State
// ---------------------------------------------------------------------------
/// The window's state.
#[derive(Debug)]
pub struct SettingsWindow {
    /// The last snapshot of the shared settings. Whether the tint is on is
    /// derived from this and the clock every time, never kept.
    pub settings: Settings,
    /// The temperature slider's live position in Kelvin, which runs ahead of the
    /// stored temperature while a drag is in progress.
    pub temperature: u32,
    /// The brightness slider's live position, which runs ahead the same way.
    pub brightness: Brightness,
    /// Whether each slider is being dragged, so an incoming change doesn't yank
    /// its handle out from under the pointer.
    pub temperature_dragging: bool,
    pub brightness_dragging: bool,
    /// Whether times are presented on a 24-hour clock.
    pub military: bool,
    /// Whether the flatpak build still wants its one-time host setup.
    pub setup: HostSetup,
    /// Whether a setup attempt is outstanding.
    pub setup_busy: bool,
    /// Why the last attempt didn't take.
    pub setup_error: Option<String>,
    /// The schedule to fall back to while a setup runs on behalf of one the user
    /// just picked.
    pub schedule_revert: Option<Schedule>,
    /// Whether the applet is on a panel, or `None` where that can't be told.
    pub applet_present: Option<bool>,
    /// Whether an autostart entry is installed for the headless daemon.
    pub autostart: bool,
    /// Why the last autostart change didn't take.
    pub autostart_error: Option<String>,
}

/// A [`SettingsWindow`] as plain data.
#[verifier::ext_equal]
pub struct WindowView {
    pub settings: Settings,
    pub temperature: u32,
    pub brightness: Brightness,
    pub temperature_dragging: bool,
    pub brightness_dragging: bool,
    pub military: bool,
    pub setup: HostSetup,
    pub setup_busy: bool,
    pub setup_error: Option<Seq<char>>,
    pub schedule_revert: Option<Schedule>,
    pub applet_present: Option<bool>,
    pub autostart: bool,
    pub autostart_error: Option<Seq<char>>,
}

impl View for SettingsWindow {
    type V = WindowView;

    open spec fn view(&self) -> WindowView {
        WindowView {
            settings: self.settings,
            temperature: self.temperature,
            brightness: self.brightness,
            temperature_dragging: self.temperature_dragging,
            brightness_dragging: self.brightness_dragging,
            military: self.military,
            setup: self.setup,
            setup_busy: self.setup_busy,
            setup_error: optional_view(self.setup_error),
            schedule_revert: self.schedule_revert,
            applet_present: self.applet_present,
            autostart: self.autostart,
            autostart_error: optional_view(self.autostart_error),
        }
    }
}

/// Something that happens to the window. Where it takes looking at the host, the
/// panel or the autostart entry, the message carries what was found.
#[derive(Debug)]
pub enum Message {
    ScheduleSelected(usize),
    TimeSelected(Bound, TimePart),
    Toggle(bool),
    TemperatureChanged(u32),
    TemperatureCommitted,
    BrightnessChanged(Brightness),
    /// The brightness slider was released. This is where it stands at its own
    /// precision, which counts only if it was not moved: a handle that was dragged
    /// is where it was dragged to.
    BrightnessCommitted(Brightness),
    ConfigUpdated(Settings),
    Tick { setup: HostSetup, applet_present: Option<bool>, autostart: bool },
    /// A toggle's apply came back. `previous` is the override to fall back to if
    /// it didn't land.
    ToggleFinished { previous: Override, applied: bool, setup: HostSetup },
    /// The setup row's button.
    RunHostSetup,
    /// The setup finished, one way or the other.
    HostSetupFinished { error: Option<String>, setup: HostSetup },
    /// The background toggle, or the banner's shortcut to it.
    SetAutostart(bool),
    /// Changing the autostart entry came to this.
    AutostartSet { error: Option<String>, autostart: bool },
    /// The banner's primary action.
    OpenAppletSettings,
}

/// A [`Message`] as plain data.
pub enum MessageView {
    ScheduleSelected(usize),
    TimeSelected(Bound, TimePart),
    Toggle(bool),
    TemperatureChanged(u32),
    TemperatureCommitted,
    BrightnessChanged(Brightness),
    BrightnessCommitted(Brightness),
    ConfigUpdated(Settings),
    Tick { setup: HostSetup, applet_present: Option<bool>, autostart: bool },
    ToggleFinished { previous: Override, applied: bool, setup: HostSetup },
    RunHostSetup,
    HostSetupFinished { error: Option<Seq<char>>, setup: HostSetup },
    SetAutostart(bool),
    AutostartSet { error: Option<Seq<char>>, autostart: bool },
    OpenAppletSettings,
}

impl View for Message {
    type V = MessageView;

    open spec fn view(&self) -> MessageView {
        match *self {
            Message::ScheduleSelected(index) => MessageView::ScheduleSelected(index),
            Message::TimeSelected(bound, part) => MessageView::TimeSelected(
                bound,
                part,
            ),
            Message::Toggle(on) => MessageView::Toggle(on),
            Message::TemperatureChanged(kelvin) => MessageView::TemperatureChanged(
                kelvin,
            ),
            Message::TemperatureCommitted => MessageView::TemperatureCommitted,
            Message::BrightnessChanged(value) => MessageView::BrightnessChanged(value),
            Message::BrightnessCommitted(value) => MessageView::BrightnessCommitted(
                value,
            ),
            Message::ConfigUpdated(settings) => MessageView::ConfigUpdated(settings),
            Message::Tick { setup, applet_present, autostart } => MessageView::Tick {
                setup,
                applet_present,
                autostart,
            },
            Message::ToggleFinished { previous, applied, setup } =>
                MessageView::ToggleFinished { previous, applied, setup },
            Message::RunHostSetup => MessageView::RunHostSetup,
            Message::HostSetupFinished { error, setup } =>
                MessageView::HostSetupFinished { error: optional_view(error), setup },
            Message::SetAutostart(enabled) => MessageView::SetAutostart(enabled),
            Message::AutostartSet { error, autostart } => MessageView::AutostartSet {
                error: optional_view(error),
                autostart,
            },
            Message::OpenAppletSettings => MessageView::OpenAppletSettings,
        }
    }
}

/// Something the window does outside its own state.
#[derive(Clone, Copy, Debug, PartialEq, Eq, Structural)]
pub enum WindowEffect {
    Screen(ScreenChange),
    /// Run the one-time host setup, off the UI thread: it waits on a password
    /// dialog.
    RunHostSetup,
    /// Turn background running on or off, and report back what came of it.
    SetAutostart(bool),
    /// Open COSMIC Settings' applet picker.
    OpenAppletSettings,
}

impl WindowView {
    /// The window with a new snapshot. Each slider follows only when it is not
    /// being dragged.
    pub open spec fn with_snapshot(self, settings: Settings) -> WindowView {
        WindowView {
            settings,
            temperature: if self.temperature_dragging {
                self.temperature
            } else {
                settings.temperature
            },
            brightness: if self.brightness_dragging {
                self.brightness
            } else {
                settings.brightness
            },
            ..self
        }
    }

    /// The window with an override.
    pub open spec fn with_override(self, value: Override) -> WindowView {
        WindowView { settings: Settings { tint_override: value, ..self.settings }, ..self }
    }

    /// The window with a schedule.
    pub open spec fn with_schedule(self, schedule: Schedule) -> WindowView {
        WindowView { settings: Settings { schedule, ..self.settings }, ..self }
    }

    /// The window once a setup has been started.
    pub open spec fn setting_up(self, schedule_revert: Option<Schedule>) -> WindowView {
        WindowView { setup_busy: true, setup_error: None, schedule_revert, ..self }
    }

    /// Where the brightness slider is released: where it was dragged to, or where
    /// it rests if it was not moved.
    pub open spec fn released_at(self, resting: Brightness) -> Brightness {
        if self.brightness_dragging {
            self.brightness
        } else {
            resting
        }
    }

    /// Whether picking a schedule has to wait for the setup. A schedule changes
    /// the screen while nobody is watching, which is when a password prompt is
    /// worst.
    pub open spec fn needs_setup_for(self, schedule: Schedule) -> bool {
        schedule != Schedule::Manual && self.setup != HostSetup::Ready
    }

    /// The settings after the tick's decisions. While a setup is in flight the
    /// schedule on show is not yet a stored one, so nothing is parked.
    pub open spec fn decided(self, setup: HostSetup, moment: Moment) -> Settings {
        if self.setup_busy {
            self.settings.expired_at(moment.minute_of_day as int, moment.sun)
        } else {
            decided_settings(self.settings, setup == HostSetup::Ready, moment)
        }
    }

    /// The window as of the tick, before its decisions: in step with the store,
    /// unless a setup is in flight, when re-reading would take back the schedule
    /// on show.
    pub open spec fn resynced(self, store: Option<StoreView>) -> WindowView {
        if self.setup_busy {
            self
        } else {
            self.with_snapshot(loaded(store))
        }
    }

    /// Whether background running is to be turned off because the applet is
    /// known to be on a panel.
    pub open spec fn background_is_redundant(self) -> bool {
        self.applet_present == Some(true) && self.autostart
    }

    /// The window after a message.
    pub open spec fn after(
        self,
        store: Option<StoreView>,
        message: MessageView,
        moment: Moment,
    ) -> WindowView {
        match message {
            MessageView::ScheduleSelected(index) => {
                let chosen = Schedule::ALL[index as int];
                if self.needs_setup_for(chosen) {
                    self.with_schedule(chosen).setting_up(Some(self.settings.schedule))
                } else {
                    self.with_schedule(chosen)
                }
            },
            MessageView::TimeSelected(bound, part) => WindowView {
                settings: match bound {
                    Bound::Sunset => Settings {
                        sunset_minutes: time_with(
                            self.settings.sunset_minutes as int,
                            part,
                            self.military,
                        ) as u32,
                        ..self.settings
                    },
                    Bound::Sunrise => Settings {
                        sunrise_minutes: time_with(
                            self.settings.sunrise_minutes as int,
                            part,
                            self.military,
                        ) as u32,
                        ..self.settings
                    },
                },
                ..self
            },
            MessageView::Toggle(on) => self.with_override(
                override_for(self.settings, on, moment),
            ),
            MessageView::ToggleFinished { previous, applied, setup } => {
                let settled = if applied {
                    self
                } else {
                    self.with_override(previous)
                };
                WindowView { setup, ..settled }
            },
            MessageView::TemperatureChanged(kelvin) => WindowView {
                temperature: kelvin,
                temperature_dragging: true,
                ..self
            },
            MessageView::TemperatureCommitted => WindowView {
                temperature_dragging: false,
                settings: Settings { temperature: self.temperature, ..self.settings },
                ..self
            },
            MessageView::BrightnessChanged(value) => WindowView {
                brightness: value,
                brightness_dragging: true,
                ..self
            },
            MessageView::BrightnessCommitted(resting) => WindowView {
                brightness: self.released_at(resting),
                brightness_dragging: false,
                settings: Settings { brightness: self.released_at(resting), ..self.settings },
                ..self
            },
            MessageView::ConfigUpdated(settings) => self.with_snapshot(settings),
            MessageView::Tick { setup, applet_present, autostart } => {
                let synced = self.resynced(store);
                WindowView {
                    settings: synced.decided(setup, moment),
                    setup: if self.setup_busy {
                        self.setup
                    } else {
                        setup
                    },
                    applet_present,
                    autostart,
                    ..synced
                }
            },
            MessageView::RunHostSetup => self.setting_up(None),
            MessageView::HostSetupFinished { error, setup } => {
                let shown = match self.schedule_revert {
                    Some(previous) => if setup == HostSetup::Ready {
                        self
                    } else {
                        self.with_schedule(previous)
                    },
                    None => self,
                };
                WindowView {
                    setup_busy: false,
                    setup_error: error,
                    setup,
                    schedule_revert: None,
                    ..shown
                }
            },
            MessageView::AutostartSet { error, autostart } => WindowView {
                autostart,
                autostart_error: error,
                ..self
            },
            MessageView::SetAutostart(_) => self,
            MessageView::OpenAppletSettings => self,
        }
    }

    /// The store after a message.
    pub open spec fn stored(
        self,
        store: Option<StoreView>,
        message: MessageView,
        moment: Moment,
    ) -> Option<StoreView> {
        match message {
            MessageView::ScheduleSelected(index) => {
                let chosen = Schedule::ALL[index as int];
                if self.needs_setup_for(chosen) {
                    store
                } else {
                    after_write(store, ConfigWrite::Schedule(chosen))
                }
            },
            MessageView::TimeSelected(bound, part) => after_write(
                store,
                match bound {
                    Bound::Sunset => ConfigWrite::SunsetMinutes(
                        time_with(self.settings.sunset_minutes as int, part, self.military) as u32,
                    ),
                    Bound::Sunrise => ConfigWrite::SunriseMinutes(
                        time_with(self.settings.sunrise_minutes as int, part, self.military) as u32,
                    ),
                },
            ),
            MessageView::Toggle(on) => after_write(
                store,
                ConfigWrite::Override(override_for(self.settings, on, moment)),
            ),
            MessageView::ToggleFinished { previous, applied, .. } => if applied {
                store
            } else {
                after_write(store, ConfigWrite::Override(previous))
            },
            MessageView::TemperatureCommitted => after_write(
                store,
                ConfigWrite::Temperature(self.temperature),
            ),
            MessageView::BrightnessCommitted(resting) => after_write(
                store,
                ConfigWrite::Brightness(self.released_at(resting)),
            ),
            MessageView::Tick { setup, .. } => if self.setup_busy {
                expiry_stored(
                    store,
                    self.settings,
                    moment.minute_of_day as int,
                    moment.sun,
                )
            } else {
                decided_store(store, loaded(store), setup == HostSetup::Ready, moment)
            },
            MessageView::HostSetupFinished { setup, .. } => if self.schedule_revert is Some
                && setup == HostSetup::Ready {
                after_write(store, ConfigWrite::Schedule(self.settings.schedule))
            } else {
                store
            },
            _ => store,
        }
    }

    /// What is done about a message outside the window's state, in order.
    pub open spec fn effects(
        self,
        store: Option<StoreView>,
        message: MessageView,
        moment: Moment,
    ) -> Seq<WindowEffect> {
        let after = self.after(store, message, moment);
        match message {
            MessageView::ScheduleSelected(index) => if self.needs_setup_for(
                Schedule::ALL[index as int],
            ) {
                seq![WindowEffect::RunHostSetup]
            } else {
                seq![]
            },
            MessageView::Toggle(on) => seq![
                WindowEffect::Screen(
                    ScreenChange::Toggle {
                        state: if on {
                            Some(self.temperature)
                        } else {
                            None
                        },
                        brightness: self.settings.brightness,
                        previous: self.settings.tint_override,
                    },
                ),
            ],
            MessageView::TemperatureCommitted => pushed(pushing(after.settings, moment)),
            MessageView::BrightnessCommitted(_) => pushed(pushing(after.settings, moment)),
            MessageView::ConfigUpdated(_) => seq![
                WindowEffect::Screen(showing(after.settings, moment)),
            ],
            MessageView::Tick { .. } => if after.background_is_redundant() {
                seq![
                    WindowEffect::Screen(showing(after.settings, moment)),
                    WindowEffect::SetAutostart(false),
                ]
            } else {
                seq![WindowEffect::Screen(showing(after.settings, moment))]
            },
            MessageView::RunHostSetup => seq![WindowEffect::RunHostSetup],
            MessageView::SetAutostart(enabled) => seq![WindowEffect::SetAutostart(enabled)],
            MessageView::OpenAppletSettings => seq![WindowEffect::OpenAppletSettings],
            _ => seq![],
        }
    }
}

/// A change to the screen that may not be there, as a list of effects.
pub open spec fn pushed(change: Option<ScreenChange>) -> Seq<WindowEffect> {
    match change {
        Some(c) => seq![WindowEffect::Screen(c)],
        None => seq![],
    }
}

impl SettingsWindow {
    /// The window as it opens, over what the store holds and what was found
    /// about the host, the panel and the autostart entry. A background setting
    /// the applet has made redundant is to be turned off before the first render.
    pub fn init(
        handler: &Option<Store>,
        military: bool,
        setup: HostSetup,
        applet_present: Option<bool>,
        autostart: bool,
    ) -> (opened: (SettingsWindow, Vec<WindowEffect>))
        ensures
            opened.0@ == (WindowView {
                settings: loaded(handler_view(*handler)),
                temperature: loaded(handler_view(*handler)).temperature,
                brightness: loaded(handler_view(*handler)).brightness,
                temperature_dragging: false,
                brightness_dragging: false,
                military,
                setup,
                setup_busy: false,
                setup_error: None,
                schedule_revert: None,
                applet_present,
                autostart,
                autostart_error: None,
            }),
            opened.1@ == (if opened.0@.background_is_redundant() {
                seq![WindowEffect::SetAutostart(false)]
            } else {
                seq![]
            }),
    {
        let settings = Settings::load_from(handler);
        let window = SettingsWindow {
            settings,
            temperature: settings.temperature,
            brightness: settings.brightness,
            temperature_dragging: false,
            brightness_dragging: false,
            military,
            setup,
            setup_busy: false,
            setup_error: None,
            schedule_revert: None,
            applet_present,
            autostart,
            autostart_error: None,
        };
        let mut effects: Vec<WindowEffect> = Vec::new();
        if window.retire_redundant_background() {
            effects.push(WindowEffect::SetAutostart(false));
        }
        assert(effects@ =~= if window@.background_is_redundant() {
            seq![WindowEffect::SetAutostart(false)]
        } else {
            seq![]
        });
        (window, effects)
    }

    /// Whether background running is to be turned off because the applet is back
    /// on the panel to do the job. Only on a confident yes: switching off the
    /// only thing keeping the schedule on a guess would cost the schedule.
    pub fn retire_redundant_background(&self) -> (retire: bool)
        ensures
            retire == self@.background_is_redundant(),
    {
        match self.applet_present {
            Some(present) => present && self.autostart,
            None => false,
        }
    }

    /// Starts the one-time host setup. `schedule_revert` is the schedule to fall
    /// back to when the setup was asked for by picking one, so a dismissed prompt
    /// doesn't leave a schedule standing that cannot act on itself.
    fn start_host_setup(&mut self, schedule_revert: Option<Schedule>)
        ensures
            final(self)@ == old(self)@.setting_up(schedule_revert),
    {
        self.setup_busy = true;
        self.setup_error = None;
        self.schedule_revert = schedule_revert;
    }

    /// Re-reads the stored settings, so a snapshot that has drifted from the
    /// store is corrected instead of fought over.
    fn resync(&mut self, handler: &Option<Store>)
        ensures
            final(self)@ == old(self)@.resynced(handler_view(*handler)),
    {
        if self.setup_busy {
            return;
        }
        resync(handler, &mut self.settings);
        self.follow();
    }

    /// Moves each slider that is not being dragged to what the settings say.
    fn follow(&mut self)
        ensures
            final(self)@ == old(self)@.with_snapshot(old(self).settings),
    {
        if !self.temperature_dragging {
            self.temperature = self.settings.temperature;
        }
        if !self.brightness_dragging {
            self.brightness = self.settings.brightness;
        }
    }

    /// Makes the tick's decisions.
    fn reconcile(&mut self, handler: &mut Option<Store>, setup: HostSetup, moment: Moment)
        ensures
            final(self)@ == (WindowView {
                settings: old(self)@.decided(setup, moment),
                ..old(self)@
            }),
            handler_view(*final(handler)) == (if old(self).setup_busy {
                expiry_stored(
                    handler_view(*old(handler)),
                    old(self).settings,
                    moment.minute_of_day as int,
                    moment.sun,
                )
            } else {
                decided_store(
                    handler_view(*old(handler)),
                    old(self).settings,
                    setup == HostSetup::Ready,
                    moment,
                )
            }),
    {
        if self.setup_busy {
            expire_override_at(handler, &mut self.settings, moment.minute_of_day, moment.sun);
        } else {
            decide(handler, &mut self.settings, setup, moment);
        }
    }
}

/// Whether a message takes a window and its store from one state to another with
/// these effects.
#[verifier::opaque]
spec fn leads_to(
    before: WindowView,
    store: Option<StoreView>,
    message: MessageView,
    moment: Moment,
    after: WindowView,
    stored: Option<StoreView>,
    effects: Seq<WindowEffect>,
) -> bool {
    &&& after == before.after(store, message, moment)
    &&& stored == before.stored(store, message, moment)
    &&& effects =~= before.effects(store, message, moment)
}

/// A list of one effect.
fn only(effect: WindowEffect) -> (effects: Vec<WindowEffect>)
    ensures
        effects@ == seq![effect],
{
    let mut effects: Vec<WindowEffect> = Vec::new();
    effects.push(effect);
    effects
}

/// A list of one change to the screen, or of nothing.
fn push_screen(change: Option<ScreenChange>) -> (effects: Vec<WindowEffect>)
    ensures
        effects@ == pushed(change),
{
    match change {
        Some(change) => only(WindowEffect::Screen(change)),
        None => Vec::new(),
    }
}

impl SettingsWindow {
    /// A schedule was picked.
    fn select_schedule(
        &mut self,
        handler: &mut Option<Store>,
        index: usize,
        moment: Moment,
    ) -> (effects: Vec<WindowEffect>)
        requires
            index < 3,
        ensures
            leads_to(
                old(self)@,
                handler_view(*old(handler)),
                MessageView::ScheduleSelected(index),
                moment,
                final(self)@,
                handler_view(*final(handler)),
                effects@,
            ),
    {
        reveal(leads_to);
        let chosen = Schedule::ALL[index];
        // A schedule is a promise to change the screen while nobody is watching,
        // so this is the one place worth asking for the setup up front rather
        // than letting it ride along.
        if chosen != Schedule::Manual && self.setup != HostSetup::Ready {
            let previous = self.settings.schedule;
            // Show the choice while the prompt is up, but don't store it until
            // the setup that makes it work has actually landed.
            self.settings.schedule = chosen;
            self.start_host_setup(Some(previous));
            only(WindowEffect::RunHostSetup)
        } else {
            self.settings.schedule = chosen;
            store_schedule(handler, chosen);
            Vec::new()
        }
    }

    /// A part of a time was picked.
    fn select_time(
        &mut self,
        handler: &mut Option<Store>,
        bound: Bound,
        part: TimePart,
        moment: Moment,
    ) -> (effects: Vec<WindowEffect>)
        ensures
            leads_to(
                old(self)@,
                handler_view(*old(handler)),
                MessageView::TimeSelected(bound, part),
                moment,
                final(self)@,
                handler_view(*final(handler)),
                effects@,
            ),
    {
        reveal(leads_to);
        match bound {
            Bound::Sunset => {
                let updated = edit_time(self.settings.sunset_minutes, part, self.military);
                self.settings.sunset_minutes = updated;
                store_sunset_minutes(handler, updated);
            },
            Bound::Sunrise => {
                let updated = edit_time(self.settings.sunrise_minutes, part, self.military);
                self.settings.sunrise_minutes = updated;
                store_sunrise_minutes(handler, updated);
            },
        }
        Vec::new()
    }

    /// The toggle was flipped.
    fn toggle(
        &mut self,
        handler: &mut Option<Store>,
        on: bool,
        moment: Moment,
    ) -> (effects: Vec<WindowEffect>)
        ensures
            leads_to(
                old(self)@,
                handler_view(*old(handler)),
                MessageView::Toggle(on),
                moment,
                final(self)@,
                handler_view(*final(handler)),
                effects@,
            ),
    {
        reveal(leads_to);
        let value = toggle_override(&self.settings, on, moment);
        let previous = self.settings.tint_override;
        self.settings.tint_override = value;
        store_override(handler, value);
        only(
            WindowEffect::Screen(
                ScreenChange::Toggle {
                    state: if on {
                        Some(self.temperature)
                    } else {
                        None
                    },
                    brightness: self.settings.brightness,
                    previous,
                },
            ),
        )
    }

    /// A toggle's apply came back. The apply is what makes a toggle true: when it
    /// doesn't land, leaving the toggle where the user clicked would have it
    /// describing a screen that never changed. That apply is also the likeliest
    /// thing ever to have run the setup.
    fn finish_toggle(
        &mut self,
        handler: &mut Option<Store>,
        previous: Override,
        applied: bool,
        setup: HostSetup,
        moment: Moment,
    ) -> (effects: Vec<WindowEffect>)
        ensures
            leads_to(
                old(self)@,
                handler_view(*old(handler)),
                (MessageView::ToggleFinished { previous, applied, setup }),
                moment,
                final(self)@,
                handler_view(*final(handler)),
                effects@,
            ),
    {
        reveal(leads_to);
        if !applied {
            self.settings.tint_override = previous;
            store_override(handler, previous);
        }
        self.setup = setup;
        Vec::new()
    }

    /// The temperature slider moved.
    fn drag_temperature(
        &mut self,
        handler: &mut Option<Store>,
        kelvin: u32,
        moment: Moment,
    ) -> (effects: Vec<WindowEffect>)
        ensures
            leads_to(
                old(self)@,
                handler_view(*old(handler)),
                MessageView::TemperatureChanged(kelvin),
                moment,
                final(self)@,
                handler_view(*final(handler)),
                effects@,
            ),
    {
        reveal(leads_to);
        self.temperature = kelvin;
        self.temperature_dragging = true;
        Vec::new()
    }

    /// The temperature slider was released.
    fn commit_temperature(
        &mut self,
        handler: &mut Option<Store>,
        moment: Moment,
    ) -> (effects: Vec<WindowEffect>)
        ensures
            leads_to(
                old(self)@,
                handler_view(*old(handler)),
                MessageView::TemperatureCommitted,
                moment,
                final(self)@,
                handler_view(*final(handler)),
                effects@,
            ),
    {
        reveal(leads_to);
        self.temperature_dragging = false;
        self.settings.temperature = self.temperature;
        store_temperature(handler, self.settings.temperature);
        push_screen(apply_if_tinted(&self.settings, moment))
    }

    /// The brightness slider moved.
    fn drag_brightness(
        &mut self,
        handler: &mut Option<Store>,
        value: Brightness,
        moment: Moment,
    ) -> (effects: Vec<WindowEffect>)
        ensures
            leads_to(
                old(self)@,
                handler_view(*old(handler)),
                MessageView::BrightnessChanged(value),
                moment,
                final(self)@,
                handler_view(*final(handler)),
                effects@,
            ),
    {
        reveal(leads_to);
        self.brightness = value;
        self.brightness_dragging = true;
        Vec::new()
    }

    /// The brightness slider was released.
    fn commit_brightness(
        &mut self,
        handler: &mut Option<Store>,
        resting: Brightness,
        moment: Moment,
    ) -> (effects: Vec<WindowEffect>)
        ensures
            leads_to(
                old(self)@,
                handler_view(*old(handler)),
                MessageView::BrightnessCommitted(resting),
                moment,
                final(self)@,
                handler_view(*final(handler)),
                effects@,
            ),
    {
        reveal(leads_to);
        if !self.brightness_dragging {
            self.brightness = resting;
        }
        self.brightness_dragging = false;
        self.settings.brightness = self.brightness;
        store_brightness(handler, self.settings.brightness);
        push_screen(apply_if_tinted(&self.settings, moment))
    }

    /// The store changed.
    fn config_updated(
        &mut self,
        handler: &mut Option<Store>,
        settings: Settings,
        moment: Moment,
    ) -> (effects: Vec<WindowEffect>)
        ensures
            leads_to(
                old(self)@,
                handler_view(*old(handler)),
                MessageView::ConfigUpdated(settings),
                moment,
                final(self)@,
                handler_view(*final(handler)),
                effects@,
            ),
    {
        reveal(leads_to);
        self.settings = settings;
        self.follow();
        only(WindowEffect::Screen(show_current(&self.settings, moment)))
    }

    /// The tick.
    fn tick(
        &mut self,
        handler: &mut Option<Store>,
        setup: HostSetup,
        applet_present: Option<bool>,
        autostart: bool,
        moment: Moment,
    ) -> (effects: Vec<WindowEffect>)
        ensures
            leads_to(
                old(self)@,
                handler_view(*old(handler)),
                (MessageView::Tick { setup, applet_present, autostart }),
                moment,
                final(self)@,
                handler_view(*final(handler)),
                effects@,
            ),
    {
        reveal(leads_to);
        // Before anything decides: the steps below reconcile the screen against
        // this snapshot, so a stale one doesn't just draw wrong, it fights the
        // applet for the screen every tick.
        self.resync(handler);
        self.reconcile(handler, setup, moment);
        let mut effects = only(WindowEffect::Screen(show_current(&self.settings, moment)));
        if !self.setup_busy {
            self.setup = setup;
        }
        self.applet_present = applet_present;
        self.autostart = autostart;
        if self.retire_redundant_background() {
            effects.push(WindowEffect::SetAutostart(false));
        }
        effects
    }

    /// The host setup finished. A schedule waiting on it is only real once the
    /// setup is: it is stored if the helper is now there, and otherwise the
    /// dropdown is put back.
    fn finish_host_setup(
        &mut self,
        handler: &mut Option<Store>,
        error: Option<String>,
        setup: HostSetup,
        moment: Moment,
    ) -> (effects: Vec<WindowEffect>)
        ensures
            leads_to(
                old(self)@,
                handler_view(*old(handler)),
                (MessageView::HostSetupFinished { error: optional_view(error), setup }),
                moment,
                final(self)@,
                handler_view(*final(handler)),
                effects@,
            ),
    {
        reveal(leads_to);
        self.setup_busy = false;
        self.setup_error = error;
        self.setup = setup;
        if let Some(previous) = self.schedule_revert {
            if setup == HostSetup::Ready {
                store_schedule(handler, self.settings.schedule);
            } else {
                self.settings.schedule = previous;
            }
        }
        self.schedule_revert = None;
        Vec::new()
    }

    /// Changing the autostart entry came to this.
    fn finish_autostart(
        &mut self,
        handler: &mut Option<Store>,
        error: Option<String>,
        autostart: bool,
        moment: Moment,
    ) -> (effects: Vec<WindowEffect>)
        ensures
            leads_to(
                old(self)@,
                handler_view(*old(handler)),
                (MessageView::AutostartSet { error: optional_view(error), autostart }),
                moment,
                final(self)@,
                handler_view(*final(handler)),
                effects@,
            ),
    {
        reveal(leads_to);
        self.autostart_error = error;
        self.autostart = autostart;
        Vec::new()
    }

    /// One of the buttons that only start something.
    fn press(
        &mut self,
        handler: &mut Option<Store>,
        message: Message,
        moment: Moment,
    ) -> (effects: Vec<WindowEffect>)
        requires
            message is SetAutostart || message is OpenAppletSettings || message is RunHostSetup,
        ensures
            leads_to(
                old(self)@,
                handler_view(*old(handler)),
                message@,
                moment,
                final(self)@,
                handler_view(*final(handler)),
                effects@,
            ),
    {
        reveal(leads_to);
        match message {
            Message::SetAutostart(enabled) => only(WindowEffect::SetAutostart(enabled)),
            Message::OpenAppletSettings => only(WindowEffect::OpenAppletSettings),
            _ => {
                self.start_host_setup(None);
                only(WindowEffect::RunHostSetup)
            },
        }
    }

    /// Hands a message to what deals with it.
    fn dispatch(
        &mut self,
        handler: &mut Option<Store>,
        message: Message,
        moment: Moment,
    ) -> (effects: Vec<WindowEffect>)
        requires
            message matches Message::ScheduleSelected(index) ==> index < 3,
        ensures
            leads_to(
                old(self)@,
                handler_view(*old(handler)),
                message@,
                moment,
                final(self)@,
                handler_view(*final(handler)),
                effects@,
            ),
    {
        match message {
            Message::ScheduleSelected(index) => self.select_schedule(handler, index, moment),
            Message::TimeSelected(bound, part) => self.select_time(
                handler,
                bound,
                part,
                moment,
            ),
            Message::Toggle(on) => self.toggle(handler, on, moment),
            Message::ToggleFinished { previous, applied, setup } => self.finish_toggle(
                handler,
                previous,
                applied,
                setup,
                moment,
            ),
            Message::TemperatureChanged(kelvin) => self.drag_temperature(
                handler,
                kelvin,
                moment,
            ),
            Message::TemperatureCommitted => self.commit_temperature(handler, moment),
            Message::BrightnessChanged(value) => self.drag_brightness(handler, value, moment),
            Message::BrightnessCommitted(value) => self.commit_brightness(
                handler,
                value,
                moment,
            ),
            Message::ConfigUpdated(settings) => self.config_updated(
                handler,
                settings,
                moment,
            ),
            Message::Tick { setup, applet_present, autostart } => self.tick(
                handler,
                setup,
                applet_present,
                autostart,
                moment,
            ),
            Message::HostSetupFinished { error, setup } => self.finish_host_setup(
                handler,
                error,
                setup,
                moment,
            ),
            Message::AutostartSet { error, autostart } => self.finish_autostart(
                handler,
                error,
                autostart,
                moment,
            ),
            Message::RunHostSetup => self.press(
                handler,
                Message::RunHostSetup,
                moment,
            ),
            Message::SetAutostart(enabled) => self.press(
                handler,
                Message::SetAutostart(enabled),
                moment,
            ),
            Message::OpenAppletSettings => self.press(
                handler,
                Message::OpenAppletSettings,
                moment,
            ),
        }
    }

    /// Does what a message asks for, and says what is to be done outside. A
    /// selected schedule is one of those there are.
    pub fn update(
        &mut self,
        handler: &mut Option<Store>,
        message: Message,
        moment: Moment,
    ) -> (effects: Vec<WindowEffect>)
        requires
            message matches Message::ScheduleSelected(index) ==> index < 3,
        ensures
            final(self)@ == old(self)@.after(handler_view(*old(handler)), message@, moment),
            handler_view(*final(handler)) == old(self)@.stored(
                handler_view(*old(handler)),
                message@,
                moment,
            ),
            effects@ == old(self)@.effects(handler_view(*old(handler)), message@, moment),
    {
        reveal(leads_to);
        self.dispatch(handler, message, moment)
    }
}

// ---------------------------------------------------------------------------
// What holds of it
// ---------------------------------------------------------------------------
/// **Law.** A schedule picked without a setup is on show but not stored until
/// the setup lands: a setup that leaves the host ready stores it, and one that
/// does not puts the dropdown back with nothing stored. A tick in between takes
/// neither away.
pub proof fn a_picked_schedule_waits_for_its_setup(
    window: WindowView,
    store: StoreView,
    index: usize,
    tick: MessageView,
    error: Option<Seq<char>>,
    setup: HostSetup,
    moment: Moment,
)
    requires
        index < 3,
        tick is Tick,
        window.needs_setup_for(Schedule::ALL[index as int]),
    ensures
        ({
            let chosen = Schedule::ALL[index as int];
            let pick = MessageView::ScheduleSelected(index);
            let finish = MessageView::HostSetupFinished { error, setup };
            let picking = window.after(Some(store), pick, moment);
            let waiting = picking.after(Some(store), tick, moment);
            let before = picking.stored(Some(store), tick, moment);
            let done = waiting.after(before, finish, moment);
            &&& window.stored(Some(store), pick, moment) == Some(store)
            &&& window.effects(Some(store), pick, moment) == seq![WindowEffect::RunHostSetup]
            &&& picking.settings.schedule == chosen
            &&& waiting.settings.schedule == chosen
            &&& loaded(before).schedule == loaded(Some(store)).schedule
            &&& !done.setup_busy
            &&& setup == HostSetup::Ready ==> done.settings.schedule == chosen && loaded(
                waiting.stored(before, finish, moment),
            ).schedule == chosen
            &&& setup != HostSetup::Ready ==> done.settings.schedule == window.settings.schedule
                && waiting.stored(before, finish, moment) == before
        }),
{
    let chosen = Schedule::ALL[index as int];
    let picking = window.after(Some(store), MessageView::ScheduleSelected(index), moment);
    let before = picking.stored(Some(store), tick, moment)->0;
    a_stored_value_reads_back(store, ConfigWrite::Override(Override::Auto));
    a_stored_value_reads_back(before, ConfigWrite::Schedule(chosen));
}

/// **Law.** No schedule is stored that the host cannot keep: whatever happens, a
/// stored schedule changes to anything but manual only while the host is known
/// to be set up.
pub proof fn no_schedule_is_stored_without_a_setup(
    window: WindowView,
    store: StoreView,
    message: MessageView,
    moment: Moment,
)
    requires
        message matches MessageView::ScheduleSelected(index) ==> index < 3,
    ensures
        ({
            let before = loaded(Some(store)).schedule;
            let after = loaded(window.stored(Some(store), message, moment)).schedule;
            after != before && after != Schedule::Manual ==> window.after(
                Some(store),
                message,
                moment,
            ).setup == HostSetup::Ready
        }),
{
    match message {
        MessageView::ScheduleSelected(index) => {
            a_stored_value_reads_back(store, ConfigWrite::Schedule(Schedule::ALL[index as int]));
        },
        MessageView::TimeSelected(bound, part) => {
            a_stored_value_reads_back(
                store,
                match bound {
                    Bound::Sunset => ConfigWrite::SunsetMinutes(
                        time_with(window.settings.sunset_minutes as int, part, window.military) as u32,
                    ),
                    Bound::Sunrise => ConfigWrite::SunriseMinutes(
                        time_with(
                            window.settings.sunrise_minutes as int,
                            part,
                            window.military,
                        ) as u32,
                    ),
                },
            );
        },
        MessageView::Toggle(on) => {
            a_stored_value_reads_back(
                store,
                ConfigWrite::Override(override_for(window.settings, on, moment)),
            );
        },
        MessageView::ToggleFinished { previous, .. } => {
            a_stored_value_reads_back(store, ConfigWrite::Override(previous));
        },
        MessageView::TemperatureCommitted => {
            a_stored_value_reads_back(store, ConfigWrite::Temperature(window.temperature));
        },
        MessageView::BrightnessCommitted(resting) => {
            a_stored_value_reads_back(store, ConfigWrite::Brightness(window.released_at(resting)));
        },
        MessageView::Tick { setup, .. } => {
            a_stored_value_reads_back(store, ConfigWrite::Override(Override::Auto));
            deciding_keeps_the_snapshot_in_step(store, setup == HostSetup::Ready, moment);
        },
        MessageView::HostSetupFinished { .. } => {
            a_stored_value_reads_back(store, ConfigWrite::Schedule(window.settings.schedule));
        },
        _ => {},
    }
}

/// **Law.** A toggle that doesn't land is put back: the settings and the stored
/// override end up as they were before it was flipped.
pub proof fn a_failed_toggle_is_put_back(
    window: WindowView,
    store: StoreView,
    on: bool,
    setup: HostSetup,
    flipped: Moment,
    finished: Moment,
)
    requires
        window.settings == loaded(Some(store)),
    ensures
        ({
            let flip = MessageView::Toggle(on);
            let back = MessageView::ToggleFinished {
                previous: window.settings.tint_override,
                applied: false,
                setup,
            };
            let after = window.after(Some(store), flip, flipped);
            let stored = window.stored(Some(store), flip, flipped);
            &&& after.settings.on_at(flipped) == on
            &&& after.after(stored, back, finished) == (WindowView { setup, ..window })
            &&& loaded(after.stored(stored, back, finished)) == loaded(Some(store))
        }),
{
    let first = ConfigWrite::Override(override_for(window.settings, on, flipped));
    let second = ConfigWrite::Override(window.settings.tint_override);
    the_toggle_means_what_it_shows(window.settings, on, flipped, flipped);
    a_stored_value_reads_back(store, first);
    a_stored_value_reads_back(store.after(first), second);
}

/// **Law.** A drag on either slider owns its handle until it is released, and
/// leaves the other slider alone: neither a change from elsewhere nor the tick
/// moves it, and what is stored on release is where it was dragged to.
pub proof fn each_drag_owns_its_handle(
    window: WindowView,
    store: Option<StoreView>,
    kelvin: u32,
    value: Brightness,
    resting: Brightness,
    incoming: Settings,
    tick: MessageView,
    moment: Moment,
)
    requires
        tick is Tick,
    ensures
        ({
            let update = MessageView::ConfigUpdated(incoming);
            let warmed = MessageView::TemperatureCommitted;
            let dimmed = MessageView::BrightnessCommitted(resting);
            let warming = window.after(
                store,
                MessageView::TemperatureChanged(kelvin),
                moment,
            );
            let dimming = window.after(store, MessageView::BrightnessChanged(value), moment);
            let warmer = warming.after(store, update, moment).after(store, tick, moment);
            let dimmer = dimming.after(store, update, moment).after(store, tick, moment);
            &&& warming.brightness == window.brightness
            &&& dimming.temperature == window.temperature
            &&& warmer.temperature == kelvin
            &&& dimmer.brightness == value
            &&& warmer.after(store, warmed, moment).settings.temperature == kelvin
            &&& dimmer.after(store, dimmed, moment).settings.brightness == value
            &&& !warmer.after(store, warmed, moment).temperature_dragging
            &&& !dimmer.after(store, dimmed, moment).brightness_dragging
            &&& warmer.stored(store, warmed, moment) == after_write(
                store,
                ConfigWrite::Temperature(kelvin),
            )
            &&& dimmer.stored(store, dimmed, moment) == after_write(
                store,
                ConfigWrite::Brightness(value),
            )
            &&& !window.temperature_dragging ==> window.after(store, update, moment).temperature
                == incoming.temperature
            &&& !window.brightness_dragging ==> window.after(store, update, moment).brightness
                == incoming.brightness
        }),
{
}

/// **Law.** No change is answered with a write.
pub proof fn a_store_change_is_not_answered_with_a_write(
    window: WindowView,
    store: Option<StoreView>,
    settings: Settings,
    moment: Moment,
)
    ensures
        window.stored(store, MessageView::ConfigUpdated(settings), moment) == store,
        window.effects(store, MessageView::ConfigUpdated(settings), moment) == seq![
            WindowEffect::Screen(showing(settings, moment)),
        ],
{
}

/// **Law.** The window and the applet never fight over the screen: over one
/// store, at one moment and with one verdict on the host, a tick of either
/// leaves the same settings, stores the same, and asks for the same screen,
/// whatever the two believed before. It holds unless a setup is in flight, when
/// the window shows a schedule that is not stored yet.
pub proof fn the_window_and_the_applet_agree(
    window: WindowView,
    panel: NightLightApplet,
    store: Option<StoreView>,
    setup: HostSetup,
    applet_present: Option<bool>,
    autostart: bool,
    moment: Moment,
)
    requires
        !window.setup_busy,
    ensures
        ({
            let tick = MessageView::Tick { setup, applet_present, autostart };
            let beat = applet::Message::Tick(setup);
            let shown = panel.effect(store, beat, moment);
            &&& window.after(store, tick, moment).settings == panel.after(
                store,
                beat,
                moment,
            ).settings
            &&& window.stored(store, tick, moment) == panel.stored(store, beat, moment)
            &&& shown is Screen
            &&& window.effects(store, tick, moment)[0] == WindowEffect::Screen(shown->Screen_0)
        }),
{
}

/// **Law.** Background running is turned off unasked only where the applet is
/// known to be on a panel, and only while it is on.
pub proof fn only_a_seen_applet_retires_the_background(
    window: WindowView,
    store: Option<StoreView>,
    setup: HostSetup,
    applet_present: Option<bool>,
    autostart: bool,
    moment: Moment,
)
    ensures
        window.effects(
            store,
            (MessageView::Tick { setup, applet_present, autostart }),
            moment,
        ).contains(WindowEffect::SetAutostart(false)) <==> applet_present == Some(true)
            && autostart,
{
    let tick = MessageView::Tick { setup, applet_present, autostart };
    let effects = window.effects(store, tick, moment);
    if applet_present == Some(true) && autostart {
        assert(effects[1] == WindowEffect::SetAutostart(false));
    } else {
        assert(effects.len() == 1);
        assert(effects[0] is Screen);
    }
}

} // verus!
