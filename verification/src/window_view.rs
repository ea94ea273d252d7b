//! What the settings window shows: which rows there are, and what they say.

use crate::clock::{format_time, time_text};
use crate::config::{
    clamped, status_line, status_text, warmth_of, Schedule, Settings, FLICKER_NOTE, MAX_KELVIN,
    MAX_WARMTH, WARMTH_ENDS,
};
use crate::host::HostSetup;
use crate::screen::{temperature_label, temperature_text};
use crate::settings_window::{
    picker_for, time_picker, Bound, SettingsWindow, TimePicker, WindowView,
};
use crate::solar::SunTimes;
use crate::text::{decimal, decimal_text, optional_view};
use crate::tick::Moment;
use vstd::prelude::*;

verus! {

/// The schedule dropdown's options, in the order of [`Schedule::ALL`].
pub const SCHEDULE_OPTIONS: [&'static str; 3] = ["Off", "Sunset to Sunrise", "Custom Schedule"];

/// A description, with what went wrong last time after it.
pub open spec fn with_error(description: Seq<char>, error: Option<Seq<char>>) -> Seq<char> {
    match error {
        Some(e) => description + "\n\nThat didn't work: "@ + e + "."@,
        None => description,
    }
}

/// Puts what went wrong last time after a description.
fn explain(description: &str, error: &Option<String>) -> (text: String)
    ensures
        text@ == with_error(description@, optional_view(*error)),
{
    match error {
        Some(error) => description.to_owned().concat("\n\nThat didn't work: ").concat(
            error.as_str(),
        ).concat("."),
        None => description.to_owned(),
    }
}

// ---------------------------------------------------------------------------
// The setup row
// ---------------------------------------------------------------------------
/// The offer of the one-time host setup.
#[derive(Debug)]
pub struct SetupRow {
    pub title: &'static str,
    pub description: String,
    pub button: &'static str,
    /// Whether the button can be pressed. Not while a setup is running: the
    /// prompt is a separate process, and pressing again would stack another.
    pub enabled: bool,
}

/// The row's title.
pub open spec fn setup_title(setup: HostSetup) -> Seq<char> {
    match setup {
        HostSetup::Outdated => "Update the installed helper"@,
        _ => "Set up Night Light"@,
    }
}

/// What the row says about the setup.
pub open spec fn setup_description(setup: HostSetup) -> Seq<char> {
    match setup {
        HostSetup::Outdated =>
            "The helper Night Light installed was put there by an older version and no longer understands this one. Running the setup again replaces it."@,
        _ => "Turning on the night light needs a one-time system permission."@,
    }
}

/// The row's button.
pub open spec fn setup_button(setup: HostSetup, busy: bool) -> Seq<char> {
    if busy {
        "Working…"@
    } else if setup == HostSetup::Outdated {
        "Update"@
    } else {
        "Set Up"@
    }
}

/// Whether the setup row offers what a window has to offer.
pub open spec fn reads_as_setup(row: SetupRow, window: WindowView) -> bool {
    &&& row.title@ == setup_title(window.setup)
    &&& row.description@ == with_error(setup_description(window.setup), window.setup_error)
    &&& row.button@ == setup_button(window.setup, window.setup_busy)
    &&& row.enabled == !window.setup_busy
}

impl SettingsWindow {
    /// The one-time host setup offer, or `None` when there is nothing to offer.
    /// It is derived from the host, never stored, so it goes once the setup has
    /// taken and comes back if the helper is ever removed.
    pub fn host_setup_row(&self) -> (row: Option<SetupRow>)
        ensures
            row is None <==> self.setup == HostSetup::Ready,
            row matches Some(r) ==> reads_as_setup(r, self@),
    {
        let (title, description, action) = match self.setup {
            HostSetup::Ready => {
                return None;
            },
            HostSetup::Needed => (
                "Set up Night Light",
                "Turning on the night light needs a one-time system permission.",
                "Set Up",
            ),
            HostSetup::Outdated => (
                "Update the installed helper",
                "The helper Night Light installed was put there by an older version and no longer understands this one. Running the setup again replaces it.",
                "Update",
            ),
        };
        let button = if self.setup_busy {
            "Working…"
        } else {
            action
        };
        Some(
            SetupRow {
                title,
                description: explain(description, &self.setup_error),
                button,
                enabled: !self.setup_busy,
            },
        )
    }
}

// ---------------------------------------------------------------------------
// Who keeps the schedule
// ---------------------------------------------------------------------------
/// The banner shown when the schedule has nobody to run it.
#[derive(Clone, Copy, Debug)]
pub struct Banner {
    pub title: &'static str,
    pub description: &'static str,
    /// Opens COSMIC Settings' applet picker.
    pub add_to_panel: &'static str,
    /// Turns background running on.
    pub run_in_background: &'static str,
}

/// The switch for background running.
#[derive(Debug)]
pub struct BackgroundRow {
    pub section: &'static str,
    pub title: &'static str,
    pub description: String,
    pub on: bool,
}

/// Whether the banner says what it is there to say.
pub open spec fn reads_as_banner(banner: Banner) -> bool {
    &&& banner.title@ == "Your schedule isn't running"@
    &&& banner.description@
        == "Night Light keeps to its schedule through the applet on your panel, or while this window is open. Add the applet, or let it run in the background instead."@
    &&& banner.add_to_panel@ == "Add to Panel"@
    &&& banner.run_in_background@ == "Run in Background"@
}

/// Whether the background row shows a window's switch.
pub open spec fn reads_as_background(row: BackgroundRow, window: WindowView) -> bool {
    &&& row.section@ == "Background"@
    &&& row.title@ == "Run in Background"@
    &&& row.description@ == with_error(
        background_description(window.applet_present),
        window.autostart_error,
    )
    &&& row.on == window.autostart
}

impl WindowView {
    /// Whether the applet may be on a panel: it is, or that cannot be told.
    pub open spec fn applet_may_be_there(self) -> bool {
        self.applet_present != Some(false)
    }

    /// Whether the background switch is shown: when there is something to do
    /// about it, or when it is on.
    pub open spec fn shows_background(self) -> bool {
        !self.applet_may_be_there() || self.autostart
    }

    /// Whether a schedule is set that nothing will be around to act on.
    pub open spec fn lacks_scheduler(self) -> bool {
        self.settings.schedule != Schedule::Manual && !self.applet_may_be_there()
            && !self.autostart
    }
}

/// What the background switch says it does.
pub open spec fn background_description(applet_present: Option<bool>) -> Seq<char> {
    if applet_present == Some(true) {
        "Not needed: the Night Light applet is on your panel and already keeps the schedule. Turning this off stops the duplicate background process."@
    } else {
        "Keeps the schedule running when this window is closed, and starts again at each login."@
    }
}

impl SettingsWindow {
    /// Whether the applet may be on a panel.
    fn applet_may_be_present(&self) -> (may_be: bool)
        ensures
            may_be == self@.applet_may_be_there(),
    {
        match self.applet_present {
            Some(present) => present,
            None => true,
        }
    }

    /// Whether a schedule is set that nothing will be around to act on: with no
    /// schedule there is nothing to miss, and a panel that cannot be read counts
    /// as having the applet.
    pub fn no_scheduler(&self) -> (lacks: bool)
        ensures
            lacks == self@.lacks_scheduler(),
    {
        self.settings.schedule != Schedule::Manual && !self.applet_may_be_present()
            && !self.autostart
    }

    /// The banner shown when the schedule has nobody to run it, or `None`. Both
    /// of its buttons make it disappear for good, so it cannot be dismissed.
    pub fn no_scheduler_banner(&self) -> (banner: Option<Banner>)
        ensures
            banner is Some <==> self@.lacks_scheduler(),
            banner matches Some(b) ==> reads_as_banner(b),
    {
        if !self.no_scheduler() {
            return None;
        }
        Some(
            Banner {
                title: "Your schedule isn't running",
                description:
                    "Night Light keeps to its schedule through the applet on your panel, or while this window is open. Add the applet, or let it run in the background instead.",
                add_to_panel: "Add to Panel",
                run_in_background: "Run in Background",
            },
        )
    }

    /// The Background section, or `None` when it has nothing to say. It is there
    /// when it is actionable or when it is on: nothing ever hides a background
    /// process that is still enabled.
    pub fn background_section(&self) -> (row: Option<BackgroundRow>)
        ensures
            row is Some <==> self@.shows_background(),
            row matches Some(r) ==> reads_as_background(r, self@),
    {
        if self.applet_may_be_present() && !self.autostart {
            return None;
        }
        // Keyed to a confident yes: telling someone the applet has them covered
        // has to be grounded in having actually seen it.
        let covered = match self.applet_present {
            Some(present) => present,
            None => false,
        };
        let description = if covered {
            "Not needed: the Night Light applet is on your panel and already keeps the schedule. Turning this off stops the duplicate background process."
        } else {
            "Keeps the schedule running when this window is closed, and starts again at each login."
        };
        Some(
            BackgroundRow {
                section: "Background",
                title: "Run in Background",
                description: explain(description, &self.autostart_error),
                on: self.autostart,
            },
        )
    }
}

// ---------------------------------------------------------------------------
// The schedule
// ---------------------------------------------------------------------------
/// Whether the times in the pickers are the ones actually in force: always for a
/// custom schedule, and for the solar one only where it has no sun to follow.
pub open spec fn typed_times_count(settings: Settings, sun: Option<SunTimes>) -> bool {
    match settings.schedule {
        Schedule::Manual => false,
        Schedule::Custom => true,
        Schedule::Solar => sun is None,
    }
}

/// The line under the schedule dropdown, if there is one.
pub open spec fn summary_line(
    settings: Settings,
    sun: Option<SunTimes>,
    located: bool,
    military: bool,
) -> Option<Seq<char>> {
    match settings.window_with(sun) {
        None => None,
        Some((sunset, sunrise)) => Some(
            if settings.schedule == Schedule::Solar && sun is None {
                if located {
                    "The sun doesn't set here today — using the times below"@
                } else {
                    "No location for your time zone — using the times below"@
                }
            } else if sunset == sunrise {
                "Warm all day from "@ + time_text(sunset as int, military)
            } else {
                "Warm from "@ + time_text(sunset as int, military) + " to "@ + time_text(
                    sunrise as int,
                    military,
                )
            },
        ),
    }
}

impl SettingsWindow {
    /// Whether the times in the pickers are the ones actually in force.
    pub fn uses_typed_times(&self, sun: Option<SunTimes>) -> (typed: bool)
        ensures
            typed == typed_times_count(self.settings, sun),
    {
        match self.settings.schedule {
            Schedule::Manual => false,
            Schedule::Custom => true,
            Schedule::Solar => sun.is_none(),
        }
    }

    /// One line under the schedule dropdown describing the window in force, or
    /// `None` when nothing is scheduled. A solar schedule that has fallen back to
    /// the typed times names the cause, since the pickers appear alongside it.
    /// `located` is whether the machine's location is known.
    pub fn schedule_summary(&self, sun: Option<SunTimes>, located: bool) -> (line: Option<String>)
        ensures
            optional_view(line) == summary_line(self.settings, sun, located, self.military),
    {
        let (sunset, sunrise) = match self.settings.window(sun) {
            Some(window) => window,
            None => {
                return None;
            },
        };
        let from = format_time(sunset, self.military);
        let to = format_time(sunrise, self.military);
        if self.settings.schedule == Schedule::Solar && sun.is_none() {
            return Some(
                if located {
                    "The sun doesn't set here today — using the times below".to_owned()
                } else {
                    "No location for your time zone — using the times below".to_owned()
                },
            );
        }
        if sunset == sunrise {
            return Some("Warm all day from ".to_owned().concat(from.as_str()));
        }
        Some(
            "Warm from ".to_owned().concat(from.as_str()).concat(" to ").concat(to.as_str()),
        )
    }
}

/// **Law.** The pickers are shown exactly when editing them would move the
/// window in force.
pub proof fn pickers_are_shown_when_they_matter(settings: Settings, sun: Option<SunTimes>)
    ensures
        typed_times_count(settings, sun) ==> forall|sunset: u32, sunrise: u32| #[trigger]
            (Settings { sunset_minutes: sunset, sunrise_minutes: sunrise, ..settings }).window_with(
                sun,
            ) == Some((sunset, sunrise)),
        !typed_times_count(settings, sun) ==> forall|sunset: u32, sunrise: u32| #[trigger]
            (Settings { sunset_minutes: sunset, sunrise_minutes: sunrise, ..settings }).window_with(
                sun,
            ) == settings.window_with(sun),
{
}

// ---------------------------------------------------------------------------
// The whole window
// ---------------------------------------------------------------------------
/// How a percentage is labelled.
pub open spec fn brightness_text(percent: int) -> Seq<char> {
    "Brightness: "@ + (if percent < 0 {
        "-"@ + decimal((-percent) as nat)
    } else {
        decimal(percent as nat)
    }) + "%"@
}

/// Labels a brightness, given in percent.
pub fn brightness_label(percent: i32) -> (label: String)
    ensures
        label@ == brightness_text(percent as int),
{
    let number = if percent < 0 {
        "-".to_owned().concat(decimal_text((-(percent as i64)) as u64).as_str())
    } else {
        decimal_text(percent as u64)
    };
    "Brightness: ".to_owned().concat(number.as_str()).concat("%")
}

/// Everything the window shows, from top to bottom.
#[derive(Debug)]
pub struct WindowContent {
    pub title: &'static str,
    pub setup: Option<SetupRow>,
    pub banner: Option<Banner>,
    /// Under the heading of the night light section, since every control in it
    /// flickers.
    pub note: &'static str,
    pub tint_on: bool,
    pub status: String,
    pub temperature: String,
    /// The temperature slider's position: the track runs in warmth, so dragging
    /// right warms the screen.
    pub warmth: u32,
    /// The captions under the temperature slider, left and right.
    pub ends: (&'static str, &'static str),
    pub brightness: String,
    pub brightness_note: &'static str,
    /// The schedule dropdown's position.
    pub schedule: usize,
    pub summary: Option<String>,
    /// When the tint turns on and off, where the typed times are in force.
    pub pickers: Option<(TimePicker, TimePicker)>,
    pub background: Option<BackgroundRow>,
}

impl SettingsWindow {
    /// Everything the window shows now. `located` is whether the machine's
    /// location is known, and `percent` the brightness slider's position.
    pub fn view_content(&self, moment: Moment, located: bool, percent: i32) -> (content:
        WindowContent)
        ensures
            content.title@ == "Night Light Settings"@,
            content.setup is None <==> self.setup == HostSetup::Ready,
            content.setup matches Some(r) ==> reads_as_setup(r, self@),
            content.banner is Some <==> self@.lacks_scheduler(),
            content.banner matches Some(b) ==> reads_as_banner(b),
            content.note@ == FLICKER_NOTE@,
            content.tint_on == self.settings.on_at(moment),
            content.status@ == status_line(
                self.settings,
                self.settings.on_at(moment),
                moment.sun,
                self.military,
            ),
            content.temperature@ == temperature_text(self.temperature as int),
            content.warmth == clamped(MAX_KELVIN - self.temperature, 0, MAX_WARMTH as int),
            content.ends.0@ == "Less warm"@,
            content.ends.1@ == "More warm"@,
            content.brightness@ == brightness_text(percent as int),
            content.brightness_note@ == "Dims the screen while the night light is on"@,
            content.schedule < 3,
            Schedule::ALL[content.schedule as int] == self.settings.schedule,
            optional_view(content.summary) == summary_line(
                self.settings,
                moment.sun,
                located,
                self.military,
            ),
            content.pickers == (if typed_times_count(self.settings, moment.sun) {
                Some(
                    (
                        picker_for(
                            Bound::Sunset,
                            self.settings.sunset_minutes as int,
                            self.military,
                        ),
                        picker_for(
                            Bound::Sunrise,
                            self.settings.sunrise_minutes as int,
                            self.military,
                        ),
                    ),
                )
            } else {
                None
            }),
            content.background is Some <==> self@.shows_background(),
            content.background matches Some(r) ==> reads_as_background(r, self@),
    {
        let tint_on = self.settings.tint_on_at(moment.minute_of_day, moment.sun);
        let pickers = if self.uses_typed_times(moment.sun) {
            Some(
                (
                    time_picker(Bound::Sunset, self.settings.sunset_minutes, self.military),
                    time_picker(Bound::Sunrise, self.settings.sunrise_minutes, self.military),
                ),
            )
        } else {
            None
        };
        WindowContent {
            title: "Night Light Settings",
            setup: self.host_setup_row(),
            banner: self.no_scheduler_banner(),
            note: FLICKER_NOTE,
            tint_on,
            status: status_text(&self.settings, tint_on, moment.sun, self.military),
            temperature: temperature_label(self.temperature),
            warmth: warmth_of(self.temperature),
            ends: WARMTH_ENDS,
            brightness: brightness_label(percent),
            brightness_note: "Dims the screen while the night light is on",
            schedule: self.settings.schedule.index(),
            summary: self.schedule_summary(moment.sun, located),
            pickers,
            background: self.background_section(),
        }
    }
}

/// **Law.** Nothing ever hides a background process that is still enabled, and
/// nobody whose applet may be there is told that their schedule isn't running.
pub proof fn an_enabled_background_stays_in_sight(window: WindowView)
    ensures
        window.autostart ==> window.shows_background(),
        window.lacks_scheduler() ==> window.shows_background(),
        window.applet_present != Some(false) ==> !window.lacks_scheduler(),
{
}

} // verus!
