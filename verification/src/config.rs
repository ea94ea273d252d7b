//! Persistent settings shared by every run mode: what is stored, what is read
//! back, and what the stored settings ask of the screen at a given time.
//!
//! The store holds one value per key, and any of them may be missing. Reads fall
//! back to the default settings. A value is written only when it differs from
//! the stored one, because every write wakes every process watching the store.

use crate::brightness::{equal_as_numbers, Brightness, ONE_BITS};
use crate::clock::{
    format_time, is_night, is_night_at, now_minute_of_day, time_text, MINUTES_PER_DAY,
};
use crate::solar::SunTimes;
use crate::text::{optional_view, same_text, string_views};
use vstd::prelude::*;

verus! {

/// Config namespace; also the applet's application and desktop id.
pub const APP_ID: &'static str = "io.github.cosmic_nightlight";

/// The settings window's own application id. It differs from [`APP_ID`] so that
/// a dock finds the window's own desktop entry rather than the applet's hidden
/// one.
pub const SETTINGS_APP_ID: &'static str = "io.github.cosmic_nightlight.settings";

/// Bumped if the on-disk schema ever changes incompatibly.
pub const CONFIG_VERSION: u64 = 1;

/// The keys the store holds its values under.
pub const KEY_OVERRIDE: &'static str = "override";

pub const KEY_TEMPERATURE: &'static str = "temperature";

pub const KEY_BRIGHTNESS: &'static str = "brightness";

pub const KEY_SCHEDULE: &'static str = "schedule";

pub const KEY_DEFERRED_SCHEDULE: &'static str = "deferred_schedule";

pub const KEY_SUNRISE_MINUTES: &'static str = "sunrise_minutes";

pub const KEY_SUNSET_MINUTES: &'static str = "sunset_minutes";

/// Schedule times used to be whole hours. These keys are still read where the
/// minute-precision key is missing, so an existing schedule is kept, but they are
/// never written again.
pub const LEGACY_KEY_SUNRISE_HOUR: &'static str = "sunrise_hour";

pub const LEGACY_KEY_SUNSET_HOUR: &'static str = "sunset_hour";

// ---------------------------------------------------------------------------
// Schedules and overrides
// ---------------------------------------------------------------------------
/// How the night tint is driven.
#[derive(Clone, Copy, Debug, PartialEq, Eq, Structural)]
pub enum Schedule {
    /// Tint follows the manual on/off toggle only.
    Manual,
    /// Tint follows the real sun where the machine is.
    Solar,
    /// Tint follows a window the user typed in, the same every day.
    Custom,
}

impl Schedule {
    /// Every schedule, in the order the settings dropdown lists them.
    pub const ALL: [Schedule; 3] = [Schedule::Manual, Schedule::Solar, Schedule::Custom];

    /// The text a schedule is stored as.
    pub open spec fn key(self) -> Seq<char> {
        match self {
            Schedule::Manual => "manual"@,
            Schedule::Solar => "solar"@,
            Schedule::Custom => "custom"@,
        }
    }

    /// The schedule a stored text means. `"sunset"` is what hand-typed times
    /// were once stored as; anything unrecognized is no schedule at all.
    pub open spec fn read(key: Seq<char>) -> Schedule {
        if key == "solar"@ {
            Schedule::Solar
        } else if key == "custom"@ || key == "sunset"@ {
            Schedule::Custom
        } else {
            Schedule::Manual
        }
    }

    /// Index into [`Schedule::ALL`], for the settings dropdown.
    pub fn index(self) -> (index: usize)
        ensures
            index < 3,
            Self::ALL[index as int] == self,
    {
        match self {
            Schedule::Manual => 0,
            Schedule::Solar => 1,
            Schedule::Custom => 2,
        }
    }

    /// The text this schedule is stored as.
    pub fn as_key(self) -> (key: &'static str)
        ensures
            key@ == self.key(),
    {
        match self {
            Schedule::Manual => "manual",
            Schedule::Solar => "solar",
            Schedule::Custom => "custom",
        }
    }

    /// The schedule a stored text means; see [`Schedule::read`].
    pub fn from_key(key: &str) -> (schedule: Schedule)
        ensures
            schedule == Schedule::read(key@),
    {
        if same_text(key, "solar") {
            Schedule::Solar
        } else if same_text(key, "custom") || same_text(key, "sunset") {
            Schedule::Custom
        } else {
            Schedule::Manual
        }
    }
}

/// Manual override of the current scheduled tint state.
///
/// `Auto` follows the schedule. `On` and `Off` force the tint regardless of it,
/// until the schedule next agrees.
#[derive(Clone, Copy, Debug, PartialEq, Eq, Structural)]
pub enum Override {
    Auto,
    On,
    Off,
}

impl Override {
    /// The text an override is stored as.
    pub open spec fn key(self) -> Seq<char> {
        match self {
            Override::Auto => "auto"@,
            Override::On => "on"@,
            Override::Off => "off"@,
        }
    }

    /// The override a stored text means; anything unrecognized is none.
    pub open spec fn read(key: Seq<char>) -> Override {
        if key == "on"@ {
            Override::On
        } else if key == "off"@ {
            Override::Off
        } else {
            Override::Auto
        }
    }

    /// The text this override is stored as.
    pub fn as_key(self) -> (key: &'static str)
        ensures
            key@ == self.key(),
    {
        match self {
            Override::Auto => "auto",
            Override::On => "on",
            Override::Off => "off",
        }
    }

    /// The override a stored text means; see [`Override::read`].
    pub fn from_key(key: &str) -> (value: Override)
        ensures
            value == Override::read(key@),
    {
        if same_text(key, "on") {
            Override::On
        } else if same_text(key, "off") {
            Override::Off
        } else {
            Override::Auto
        }
    }
}

/// **Law.** Every schedule survives a round trip through its stored text, and
/// the texts that are no schedule's own read as the mode they always meant.
pub proof fn schedules_survive_their_keys(schedule: Schedule)
    ensures
        Schedule::read(schedule.key()) == schedule,
        Schedule::read("sunset"@) == Schedule::Custom,
{
    reveal_strlit("manual");
    reveal_strlit("solar");
    reveal_strlit("custom");
    reveal_strlit("sunset");
    assert("manual"@[0] != "solar"@[0]);
    assert("manual"@[0] != "custom"@[0]);
    assert("manual"@[0] != "sunset"@[0]);
    assert("custom"@[0] != "solar"@[0]);
    assert("sunset"@.len() != "solar"@.len());
}

/// **Law.** Every override survives a round trip through its stored text.
pub proof fn overrides_survive_their_keys(value: Override)
    ensures
        Override::read(value.key()) == value,
{
    reveal_strlit("auto");
    reveal_strlit("on");
    reveal_strlit("off");
    assert("auto"@.len() == 4 && "on"@.len() == 2 && "off"@.len() == 3);
}

// ---------------------------------------------------------------------------
// Settings
// ---------------------------------------------------------------------------
/// A snapshot of all persisted settings.
#[derive(Clone, Copy, Debug, PartialEq, Eq, Structural)]
pub struct Settings {
    pub tint_override: Override,
    pub temperature: u32,
    pub brightness: Brightness,
    pub schedule: Schedule,
    /// A schedule parked because the host setup it depends on is not in place,
    /// waiting to be restored once it is. `None` when nothing is parked.
    pub deferred_schedule: Option<Schedule>,
    /// When the tint turns off, as minutes since local midnight.
    pub sunrise_minutes: u32,
    /// When the tint turns on, as minutes since local midnight.
    pub sunset_minutes: u32,
}

/// The settings of a store that holds nothing.
pub open spec fn default_settings() -> Settings {
    Settings {
        tint_override: Override::Auto,
        temperature: 4500,
        brightness: Brightness { bits: ONE_BITS },
        schedule: Schedule::Manual,
        deferred_schedule: None,
        sunrise_minutes: 360,
        sunset_minutes: 1080,
    }
}

impl Default for Settings {
    fn default() -> (settings: Settings)
        ensures
            settings == default_settings(),
    {
        Settings {
            tint_override: Override::Auto,
            temperature: 4500,
            brightness: Brightness::full(),
            schedule: Schedule::Manual,
            deferred_schedule: None,
            sunrise_minutes: 6 * 60,
            sunset_minutes: 18 * 60,
        }
    }
}

// ---------------------------------------------------------------------------
// The store
// ---------------------------------------------------------------------------
/// One value handed to the store.
#[derive(Clone, Copy, Debug, PartialEq, Eq, Structural)]
pub enum ConfigWrite {
    Override(Override),
    Temperature(u32),
    Brightness(Brightness),
    Schedule(Schedule),
    /// [`Schedule::Manual`] stands for nothing parked.
    DeferredSchedule(Schedule),
    SunriseMinutes(u32),
    SunsetMinutes(u32),
}

impl ConfigWrite {
    /// The key a value goes under.
    pub open spec fn goes_under(self) -> Seq<char> {
        match self {
            ConfigWrite::Override(_) => KEY_OVERRIDE@,
            ConfigWrite::Temperature(_) => KEY_TEMPERATURE@,
            ConfigWrite::Brightness(_) => KEY_BRIGHTNESS@,
            ConfigWrite::Schedule(_) => KEY_SCHEDULE@,
            ConfigWrite::DeferredSchedule(_) => KEY_DEFERRED_SCHEDULE@,
            ConfigWrite::SunriseMinutes(_) => KEY_SUNRISE_MINUTES@,
            ConfigWrite::SunsetMinutes(_) => KEY_SUNSET_MINUTES@,
        }
    }

    /// The key this value goes under.
    pub fn key(&self) -> (key: &'static str)
        ensures
            key@ == self.goes_under(),
    {
        match self {
            ConfigWrite::Override(_) => KEY_OVERRIDE,
            ConfigWrite::Temperature(_) => KEY_TEMPERATURE,
            ConfigWrite::Brightness(_) => KEY_BRIGHTNESS,
            ConfigWrite::Schedule(_) => KEY_SCHEDULE,
            ConfigWrite::DeferredSchedule(_) => KEY_DEFERRED_SCHEDULE,
            ConfigWrite::SunriseMinutes(_) => KEY_SUNRISE_MINUTES,
            ConfigWrite::SunsetMinutes(_) => KEY_SUNSET_MINUTES,
        }
    }
}

/// What the config store holds, key by key, with the writes that have not
/// reached the disk yet. A missing or unreadable key is `None`.
#[derive(Debug)]
pub struct Store {
    pub tint_override: Option<String>,
    pub temperature: Option<u32>,
    pub brightness: Option<Brightness>,
    pub schedule: Option<String>,
    pub deferred_schedule: Option<String>,
    pub sunrise_minutes: Option<u32>,
    pub sunset_minutes: Option<u32>,
    /// Schedule times used to be whole hours. These two are still read when the
    /// minute-precision key is missing, and never written.
    pub sunrise_hour: Option<u32>,
    pub sunset_hour: Option<u32>,
    /// The writes to carry out, oldest first.
    pub pending: Vec<ConfigWrite>,
}

/// A [`Store`] as plain data.
#[verifier::ext_equal]
pub struct StoreView {
    pub tint_override: Option<Seq<char>>,
    pub temperature: Option<u32>,
    pub brightness: Option<Brightness>,
    pub schedule: Option<Seq<char>>,
    pub deferred_schedule: Option<Seq<char>>,
    pub sunrise_minutes: Option<u32>,
    pub sunset_minutes: Option<u32>,
    pub sunrise_hour: Option<u32>,
    pub sunset_hour: Option<u32>,
    pub pending: Seq<ConfigWrite>,
}

impl View for Store {
    type V = StoreView;

    open spec fn view(&self) -> StoreView {
        StoreView {
            tint_override: optional_view(self.tint_override),
            temperature: self.temperature,
            brightness: self.brightness,
            schedule: optional_view(self.schedule),
            deferred_schedule: optional_view(self.deferred_schedule),
            sunrise_minutes: self.sunrise_minutes,
            sunset_minutes: self.sunset_minutes,
            sunrise_hour: self.sunrise_hour,
            sunset_hour: self.sunset_hour,
            pending: self.pending@,
        }
    }
}

/// A store that may be out of reach, as plain data.
pub open spec fn handler_view(handler: Option<Store>) -> Option<StoreView> {
    match handler {
        Some(store) => Some(store@),
        None => None,
    }
}

/// The time of day a pair of keys gives: the minutes if there are any, else the
/// whole hours, each brought into a single day.
pub open spec fn time_of_day(minutes: Option<u32>, hour: Option<u32>) -> Option<u32> {
    match minutes {
        Some(m) => Some(
            if m < MINUTES_PER_DAY {
                m
            } else {
                (MINUTES_PER_DAY - 1) as u32
            },
        ),
        None => match hour {
            Some(h) => Some(
                if h < 23 {
                    (h * 60) as u32
                } else {
                    1380
                },
            ),
            None => None,
        },
    }
}

/// The schedule a stored text parks, if it parks one.
pub open spec fn parked(key: Option<Seq<char>>) -> Option<Schedule> {
    match key {
        Some(text) => if Schedule::read(text) == Schedule::Manual {
            None
        } else {
            Some(Schedule::read(text))
        },
        None => None,
    }
}

/// `value`, or `fallback` where there is none.
pub open spec fn or_else<T>(value: Option<T>, fallback: T) -> T {
    match value {
        Some(v) => v,
        None => fallback,
    }
}

/// The settings a store holds.
pub open spec fn loaded(handler: Option<StoreView>) -> Settings {
    let default = default_settings();
    match handler {
        None => default,
        Some(store) => Settings {
            tint_override: match store.tint_override {
                Some(key) => Override::read(key),
                None => default.tint_override,
            },
            temperature: or_else(store.temperature, default.temperature),
            brightness: or_else(store.brightness, default.brightness),
            schedule: match store.schedule {
                Some(key) => Schedule::read(key),
                None => default.schedule,
            },
            deferred_schedule: parked(store.deferred_schedule),
            sunrise_minutes: or_else(
                time_of_day(store.sunrise_minutes, store.sunrise_hour),
                default.sunrise_minutes,
            ),
            sunset_minutes: or_else(
                time_of_day(store.sunset_minutes, store.sunset_hour),
                default.sunset_minutes,
            ),
        },
    }
}

impl StoreView {
    /// Whether the store already holds what `write` would put there.
    pub open spec fn holds(self, write: ConfigWrite) -> bool {
        match write {
            ConfigWrite::Override(value) => self.tint_override == Some(value.key()),
            ConfigWrite::Temperature(value) => self.temperature == Some(value),
            ConfigWrite::Brightness(value) => self.brightness is Some && equal_as_numbers(
                (self.brightness->0).bits,
                value.bits,
            ),
            ConfigWrite::Schedule(value) => self.schedule == Some(value.key()),
            ConfigWrite::DeferredSchedule(value) => self.deferred_schedule == Some(value.key()),
            ConfigWrite::SunriseMinutes(value) => self.sunrise_minutes == Some(value),
            ConfigWrite::SunsetMinutes(value) => self.sunset_minutes == Some(value),
        }
    }

    /// The store with `write` carried out, whatever it held before.
    pub open spec fn with(self, write: ConfigWrite) -> StoreView {
        match write {
            ConfigWrite::Override(value) => StoreView {
                tint_override: Some(value.key()),
                ..self
            },
            ConfigWrite::Temperature(value) => StoreView { temperature: Some(value), ..self },
            ConfigWrite::Brightness(value) => StoreView { brightness: Some(value), ..self },
            ConfigWrite::Schedule(value) => StoreView { schedule: Some(value.key()), ..self },
            ConfigWrite::DeferredSchedule(value) => StoreView {
                deferred_schedule: Some(value.key()),
                ..self
            },
            ConfigWrite::SunriseMinutes(value) => StoreView {
                sunrise_minutes: Some(value),
                ..self
            },
            ConfigWrite::SunsetMinutes(value) => StoreView { sunset_minutes: Some(value), ..self },
        }
    }

    /// The store after being handed `write`: nothing happens when it already
    /// holds that value, and otherwise the value is written.
    pub open spec fn after(self, write: ConfigWrite) -> StoreView {
        if self.holds(write) {
            self
        } else {
            StoreView { pending: self.pending.push(write), ..self.with(write) }
        }
    }
}

/// A store that may be out of reach, after being handed `write`.
pub open spec fn after_write(handler: Option<StoreView>, write: ConfigWrite) -> Option<StoreView> {
    match handler {
        Some(store) => Some(store.after(write)),
        None => None,
    }
}

/// Reads a schedule time, preferring minutes and falling back to whole hours so
/// an existing config carries over. Out-of-range values are clamped rather than
/// rejected, so a hand-edited config can't push the schedule outside a single
/// day.
pub fn read_time_of_day(minutes: Option<u32>, legacy_hour: Option<u32>) -> (time: Option<u32>)
    ensures
        time == time_of_day(minutes, legacy_hour),
{
    if let Some(minutes) = minutes {
        if minutes < MINUTES_PER_DAY {
            Some(minutes)
        } else {
            Some(MINUTES_PER_DAY - 1)
        }
    } else if let Some(hour) = legacy_hour {
        if hour < 23 {
            Some(hour * 60)
        } else {
            Some(23 * 60)
        }
    } else {
        None
    }
}

impl Settings {
    /// Reads every key from an already-opened store, falling back to defaults.
    pub fn load_from(handler: &Option<Store>) -> (settings: Settings)
        ensures
            settings == loaded(handler_view(*handler)),
    {
        let mut settings = Settings::default();
        let store = match handler {
            Some(store) => store,
            None => {
                return settings;
            },
        };
        if let Some(key) = &store.tint_override {
            settings.tint_override = Override::from_key(key.as_str());
        }
        if let Some(value) = store.temperature {
            settings.temperature = value;
        }
        if let Some(value) = store.brightness {
            settings.brightness = value;
        }
        if let Some(key) = &store.schedule {
            settings.schedule = Schedule::from_key(key.as_str());
        }
        if let Some(key) = &store.deferred_schedule {
            // `Manual` is the "nothing parked" value: it needs no setup, so
            // parking it would be a no-op.
            let schedule = Schedule::from_key(key.as_str());
            settings.deferred_schedule =
            if schedule != Schedule::Manual {
                Some(schedule)
            } else {
                None
            };
        }
        if let Some(value) = read_time_of_day(store.sunrise_minutes, store.sunrise_hour) {
            settings.sunrise_minutes = value;
        }
        if let Some(value) = read_time_of_day(store.sunset_minutes, store.sunset_hour) {
            settings.sunset_minutes = value;
        }
        settings
    }
}

impl Store {
    /// Hands one value to the store. A value that is already stored is not
    /// written again: a write that changes nothing would still wake every
    /// watcher, and watchers answer by reconciling, which writes.
    pub fn write(&mut self, write: ConfigWrite)
        ensures
            final(self)@ == old(self)@.after(write),
    {
        match write {
            ConfigWrite::Override(value) => {
                if let Some(stored) = &self.tint_override {
                    if same_text(stored.as_str(), value.as_key()) {
                        return;
                    }
                }
                self.tint_override = Some(value.as_key().to_owned());
            },
            ConfigWrite::Temperature(value) => {
                if let Some(stored) = self.temperature {
                    if stored == value {
                        return;
                    }
                }
                self.temperature = Some(value);
            },
            ConfigWrite::Brightness(value) => {
                if let Some(stored) = self.brightness {
                    if stored.equals(value) {
                        return;
                    }
                }
                self.brightness = Some(value);
            },
            ConfigWrite::Schedule(value) => {
                if let Some(stored) = &self.schedule {
                    if same_text(stored.as_str(), value.as_key()) {
                        return;
                    }
                }
                self.schedule = Some(value.as_key().to_owned());
            },
            ConfigWrite::DeferredSchedule(value) => {
                if let Some(stored) = &self.deferred_schedule {
                    if same_text(stored.as_str(), value.as_key()) {
                        return;
                    }
                }
                self.deferred_schedule = Some(value.as_key().to_owned());
            },
            ConfigWrite::SunriseMinutes(value) => {
                if let Some(stored) = self.sunrise_minutes {
                    if stored == value {
                        return;
                    }
                }
                self.sunrise_minutes = Some(value);
            },
            ConfigWrite::SunsetMinutes(value) => {
                if let Some(stored) = self.sunset_minutes {
                    if stored == value {
                        return;
                    }
                }
                self.sunset_minutes = Some(value);
            },
        }
        self.pending.push(write);
    }
}

/// Best-effort write helpers. Each silently does nothing without a store.
pub fn store_override(handler: &mut Option<Store>, value: Override)
    ensures
        handler_view(*final(handler)) == after_write(
            handler_view(*old(handler)),
            ConfigWrite::Override(value),
        ),
{
    if let Some(store) = handler {
        store.write(ConfigWrite::Override(value));
    }
}

pub fn store_temperature(handler: &mut Option<Store>, value: u32)
    ensures
        handler_view(*final(handler)) == after_write(
            handler_view(*old(handler)),
            ConfigWrite::Temperature(value),
        ),
{
    if let Some(store) = handler {
        store.write(ConfigWrite::Temperature(value));
    }
}

pub fn store_brightness(handler: &mut Option<Store>, value: Brightness)
    ensures
        handler_view(*final(handler)) == after_write(
            handler_view(*old(handler)),
            ConfigWrite::Brightness(value),
        ),
{
    if let Some(store) = handler {
        store.write(ConfigWrite::Brightness(value));
    }
}

pub fn store_schedule(handler: &mut Option<Store>, value: Schedule)
    ensures
        handler_view(*final(handler)) == after_write(
            handler_view(*old(handler)),
            ConfigWrite::Schedule(value),
        ),
{
    if let Some(store) = handler {
        store.write(ConfigWrite::Schedule(value));
    }
}

/// `None` is written as `Manual`'s key rather than by removing the key, so the
/// value always reads back the same way.
pub fn store_deferred_schedule(handler: &mut Option<Store>, value: Option<Schedule>)
    ensures
        handler_view(*final(handler)) == after_write(
            handler_view(*old(handler)),
            ConfigWrite::DeferredSchedule(or_else(value, Schedule::Manual)),
        ),
{
    let parked = match value {
        Some(schedule) => schedule,
        None => Schedule::Manual,
    };
    if let Some(store) = handler {
        store.write(ConfigWrite::DeferredSchedule(parked));
    }
}

pub fn store_sunrise_minutes(handler: &mut Option<Store>, value: u32)
    ensures
        handler_view(*final(handler)) == after_write(
            handler_view(*old(handler)),
            ConfigWrite::SunriseMinutes(value),
        ),
{
    if let Some(store) = handler {
        store.write(ConfigWrite::SunriseMinutes(value));
    }
}

pub fn store_sunset_minutes(handler: &mut Option<Store>, value: u32)
    ensures
        handler_view(*final(handler)) == after_write(
            handler_view(*old(handler)),
            ConfigWrite::SunsetMinutes(value),
        ),
{
    if let Some(store) = handler {
        store.write(ConfigWrite::SunsetMinutes(value));
    }
}

/// Re-reads the store over `settings`, correcting a snapshot that has drifted
/// away from it. Nothing of the old snapshot is left, and nothing is written.
pub fn resync(handler: &Option<Store>, settings: &mut Settings)
    ensures
        *final(settings) == loaded(handler_view(*handler)),
{
    *settings = Settings::load_from(handler);
}

/// Whether a brightness is a number at all.
pub open spec fn is_number(brightness: Brightness) -> bool {
    equal_as_numbers(brightness.bits, brightness.bits)
}

/// The settings with the value that `write` carries, as it reads back.
pub open spec fn settings_with(settings: Settings, write: ConfigWrite) -> Settings {
    match write {
        ConfigWrite::Override(value) => Settings { tint_override: value, ..settings },
        ConfigWrite::Temperature(value) => Settings { temperature: value, ..settings },
        ConfigWrite::Brightness(value) => Settings { brightness: value, ..settings },
        ConfigWrite::Schedule(value) => Settings { schedule: value, ..settings },
        ConfigWrite::DeferredSchedule(value) => Settings {
            deferred_schedule: if value == Schedule::Manual {
                None
            } else {
                Some(value)
            },
            ..settings
        },
        ConfigWrite::SunriseMinutes(value) => Settings {
            sunrise_minutes: or_else(time_of_day(Some(value), None), 0),
            ..settings
        },
        ConfigWrite::SunsetMinutes(value) => Settings {
            sunset_minutes: or_else(time_of_day(Some(value), None), 0),
            ..settings
        },
    }
}

/// **Law.** A stored value reads back, and storing it leaves every other setting
/// alone. A brightness reads back as the same number; all else reads back
/// exactly.
pub proof fn a_stored_value_reads_back(store: StoreView, write: ConfigWrite)
    ensures
        match write {
            ConfigWrite::Brightness(value) => {
                let before = loaded(Some(store));
                let after = loaded(after_write(Some(store), write));
                &&& after == (Settings { brightness: after.brightness, ..before })
                &&& after.brightness == value || equal_as_numbers(
                    after.brightness.bits,
                    value.bits,
                )
            },
            _ => loaded(after_write(Some(store), write)) == settings_with(
                loaded(Some(store)),
                write,
            ),
        },
{
    match write {
        ConfigWrite::Override(value) => overrides_survive_their_keys(value),
        ConfigWrite::Schedule(value) => schedules_survive_their_keys(value),
        ConfigWrite::DeferredSchedule(value) => schedules_survive_their_keys(value),
        _ => {},
    }
}

/// **Law.** An unchanged value is never rewritten: handing the store the same
/// value again adds no write. It is stated of every value that equals itself,
/// which leaves out only a brightness that is not a number.
pub proof fn an_unchanged_value_adds_no_write(store: StoreView, write: ConfigWrite)
    requires
        write is Brightness ==> is_number(write->Brightness_0),
    ensures
        store.after(write).after(write) == store.after(write),
{
}

/// **Law.** Whatever a store holds, the times read from it are times of day.
pub proof fn loaded_times_are_times_of_day(handler: Option<StoreView>)
    ensures
        loaded(handler).sunrise_minutes < MINUTES_PER_DAY,
        loaded(handler).sunset_minutes < MINUTES_PER_DAY,
        loaded(handler).deferred_schedule != Some(Schedule::Manual),
{
}

// ---------------------------------------------------------------------------
// What the settings ask for
// ---------------------------------------------------------------------------
impl Settings {
    /// The `(sunset, sunrise)` window the schedule is working to. The solar
    /// schedule falls back to the typed window on a day without sun times, so
    /// that a schedule the user asked for still does something.
    pub open spec fn window_with(self, sun: Option<SunTimes>) -> Option<(u32, u32)> {
        match self.schedule {
            Schedule::Manual => None,
            Schedule::Custom => Some((self.sunset_minutes, self.sunrise_minutes)),
            Schedule::Solar => match sun {
                Some(times) => Some((times.sunset_minutes, times.sunrise_minutes)),
                None => Some((self.sunset_minutes, self.sunrise_minutes)),
            },
        }
    }

    /// Whether the schedule alone wants the tint on.
    pub open spec fn scheduled_at(self, minute: int, sun: Option<SunTimes>) -> bool {
        match self.window_with(sun) {
            Some((sunset, sunrise)) => is_night(minute, sunrise as int, sunset as int),
            None => false,
        }
    }

    /// Whether the tint should be on, accounting for the override.
    pub open spec fn wanted_at(self, minute: int, sun: Option<SunTimes>) -> bool {
        match self.tint_override {
            Override::Auto => self.scheduled_at(minute, sun),
            Override::On => true,
            Override::Off => false,
        }
    }

    /// Whether there is an override and the schedule now agrees with it.
    pub open spec fn caught_up_at(self, minute: int, sun: Option<SunTimes>) -> bool {
        self.tint_override != Override::Auto && self.wanted_at(minute, sun) == self.scheduled_at(
            minute,
            sun,
        )
    }

    /// The settings once an override that has been caught up with lapses.
    pub open spec fn expired_at(self, minute: int, sun: Option<SunTimes>) -> Settings {
        if self.caught_up_at(minute, sun) {
            Settings { tint_override: Override::Auto, ..self }
        } else {
            self
        }
    }

    /// The `(sunset, sunrise)` window the schedule is working to right now, as
    /// minutes since local midnight, or `None` when nothing is scheduled. `sun`
    /// is today's sun, where it is known.
    pub fn window(&self, sun: Option<SunTimes>) -> (window: Option<(u32, u32)>)
        ensures
            window == self.window_with(sun),
    {
        let typed = (self.sunset_minutes, self.sunrise_minutes);
        match self.schedule {
            Schedule::Manual => None,
            Schedule::Custom => Some(typed),
            Schedule::Solar => match sun {
                Some(times) => Some((times.sunset_minutes, times.sunrise_minutes)),
                None => Some(typed),
            },
        }
    }

    /// Whether the schedule alone, ignoring any manual override, wants the tint
    /// on at a time of day.
    pub fn schedule_wants_tint_at(&self, minute_of_day: u32, sun: Option<SunTimes>) -> (wants: bool)
        ensures
            wants == self.scheduled_at(minute_of_day as int, sun),
    {
        match self.window(sun) {
            Some((sunset, sunrise)) => is_night_at(minute_of_day, sunrise, sunset),
            None => false,
        }
    }

    /// [`Settings::schedule_wants_tint_at`] for the present minute.
    pub fn schedule_wants_tint(&self, sun: Option<SunTimes>) -> (wants: bool)
        ensures
            exists|minute: u32| #[trigger]
                call_ensures(now_minute_of_day, (), minute) && wants == self.scheduled_at(
                    minute as int,
                    sun,
                ),
    {
        let minute = now_minute_of_day();
        assert(call_ensures(now_minute_of_day, (), minute));
        self.schedule_wants_tint_at(minute, sun)
    }

    /// Whether the tint should be on at a time of day, accounting for the
    /// override.
    pub fn tint_on_at(&self, minute_of_day: u32, sun: Option<SunTimes>) -> (on: bool)
        ensures
            on == self.wanted_at(minute_of_day as int, sun),
    {
        match self.tint_override {
            Override::Auto => self.schedule_wants_tint_at(minute_of_day, sun),
            Override::On => true,
            Override::Off => false,
        }
    }

    /// [`Settings::tint_on_at`] for the present minute. It changes as time
    /// passes, so it is asked again rather than kept.
    pub fn tint_on(&self, sun: Option<SunTimes>) -> (on: bool)
        ensures
            exists|minute: u32| #[trigger]
                call_ensures(now_minute_of_day, (), minute) && on == self.wanted_at(
                    minute as int,
                    sun,
                ),
    {
        let minute = now_minute_of_day();
        assert(call_ensures(now_minute_of_day, (), minute));
        self.tint_on_at(minute, sun)
    }

    /// Whether the schedule has caught up to the manual override, which has then
    /// served its purpose and should lapse.
    pub fn override_caught_up_at(&self, minute_of_day: u32, sun: Option<SunTimes>) -> (caught_up:
        bool)
        ensures
            caught_up == self.caught_up_at(minute_of_day as int, sun),
    {
        let want = self.schedule_wants_tint_at(minute_of_day, sun);
        match self.tint_override {
            Override::On => want,
            Override::Off => !want,
            Override::Auto => false,
        }
    }
}

/// The store once an override that has been caught up with lapses.
pub open spec fn expiry_stored(
    handler: Option<StoreView>,
    settings: Settings,
    minute: int,
    sun: Option<SunTimes>,
) -> Option<StoreView> {
    if settings.caught_up_at(minute, sun) {
        after_write(handler, ConfigWrite::Override(Override::Auto))
    } else {
        handler
    }
}

/// Clears a manual override back to `Auto` once the schedule has caught up to
/// it at a time of day, in the snapshot and in the store alike.
pub fn expire_override_at(
    handler: &mut Option<Store>,
    settings: &mut Settings,
    minute_of_day: u32,
    sun: Option<SunTimes>,
)
    ensures
        *final(settings) == old(settings).expired_at(minute_of_day as int, sun),
        handler_view(*final(handler)) == expiry_stored(
            handler_view(*old(handler)),
            *old(settings),
            minute_of_day as int,
            sun,
        ),
{
    if settings.override_caught_up_at(minute_of_day, sun) {
        settings.tint_override = Override::Auto;
        store_override(handler, Override::Auto);
    }
}

/// [`expire_override_at`] for the present minute. Every run mode does this on
/// its tick, so a force-off for one evening cannot swallow the next.
pub fn expire_override(
    handler: &mut Option<Store>,
    settings: &mut Settings,
    sun: Option<SunTimes>,
)
    ensures
        exists|minute: u32| #[trigger]
            call_ensures(now_minute_of_day, (), minute) && *final(settings) == old(
                settings,
            ).expired_at(minute as int, sun) && handler_view(*final(handler)) == expiry_stored(
                handler_view(*old(handler)),
                *old(settings),
                minute as int,
                sun,
            ),
{
    let minute = now_minute_of_day();
    assert(call_ensures(now_minute_of_day, (), minute));
    expire_override_at(handler, settings, minute, sun);
}

/// **Law.** Only the manual schedule has no window.
pub proof fn only_the_manual_schedule_has_no_window(settings: Settings, sun: Option<SunTimes>)
    ensures
        settings.window_with(sun) is None <==> settings.schedule == Schedule::Manual,
{
}

/// **Law.** The manual schedule ignores the clock: by itself it never wants the
/// tint.
pub proof fn the_manual_schedule_ignores_the_clock(
    settings: Settings,
    minute: int,
    sun: Option<SunTimes>,
)
    requires
        settings.schedule == Schedule::Manual,
    ensures
        !settings.scheduled_at(minute, sun),
{
}

/// **Law.** Without sun times the solar schedule keeps to the typed window.
pub proof fn a_day_without_sun_keeps_the_typed_window(settings: Settings)
    ensures
        (Settings { schedule: Schedule::Solar, ..settings }).window_with(None) == (Settings {
            schedule: Schedule::Custom,
            ..settings
        }).window_with(None),
{
}

/// **Law.** An override wins over the schedule at every minute of the day.
pub proof fn an_override_wins_over_the_schedule(
    settings: Settings,
    minute: int,
    sun: Option<SunTimes>,
)
    ensures
        settings.tint_override == Override::On ==> settings.wanted_at(minute, sun),
        settings.tint_override == Override::Off ==> !settings.wanted_at(minute, sun),
        settings.tint_override == Override::Auto ==> (settings.wanted_at(minute, sun)
            == settings.scheduled_at(minute, sun)),
{
}

/// **Law.** An override lapses exactly when the schedule comes round to agreeing
/// with it, and not before; and there is nothing left to lapse in `Auto`.
pub proof fn an_override_lapses_once_the_schedule_agrees(
    settings: Settings,
    minute: int,
    sun: Option<SunTimes>,
)
    ensures
        settings.tint_override == Override::On ==> (settings.caught_up_at(minute, sun)
            <==> settings.scheduled_at(minute, sun)),
        settings.tint_override == Override::Off ==> (settings.caught_up_at(minute, sun)
            <==> !settings.scheduled_at(minute, sun)),
        settings.tint_override == Override::Auto ==> !settings.caught_up_at(minute, sun),
{
}

/// **Law.** Letting an override lapse changes nothing on the screen at that
/// moment, and does nothing a second time.
pub proof fn expiry_is_invisible(settings: Settings, minute: int, sun: Option<SunTimes>)
    ensures
        settings.expired_at(minute, sun).wanted_at(minute, sun) == settings.wanted_at(minute, sun),
        settings.expired_at(minute, sun).expired_at(minute, sun) == settings.expired_at(
            minute,
            sun,
        ),
{
}

/// **Law.** A snapshot that was in step with the store is in step with it after
/// the override lapses.
pub proof fn expiry_keeps_the_snapshot_in_step(
    store: StoreView,
    minute: int,
    sun: Option<SunTimes>,
)
    ensures
        loaded(expiry_stored(Some(store), loaded(Some(store)), minute, sun)) == loaded(
            Some(store),
        ).expired_at(minute, sun),
{
    a_stored_value_reads_back(store, ConfigWrite::Override(Override::Auto));
}

// ---------------------------------------------------------------------------
// The panel
// ---------------------------------------------------------------------------
/// The applets a panel shows. Either part may be missing on a panel that has
/// never been touched, which is not the same as it being empty.
#[derive(Debug)]
pub struct Panel {
    pub center: Option<Vec<String>>,
    /// The left and the right wing.
    pub wings: Option<(Vec<String>, Vec<String>)>,
}

/// Whether a list of applet ids names our applet.
pub open spec fn lists_applet(ids: Seq<String>) -> bool {
    string_views(ids).contains(APP_ID@)
}

/// Whether a panel shows our applet.
pub open spec fn shows_applet(panel: Option<Panel>) -> bool {
    &&& panel is Some
    &&& {
        ||| ((panel->0).center is Some && lists_applet(((panel->0).center->0)@))
        ||| ((panel->0).wings is Some && lists_applet(((panel->0).wings->0).0@))
        ||| ((panel->0).wings is Some && lists_applet(((panel->0).wings->0).1@))
    }
}

/// Whether any of `panels` shows our applet.
pub open spec fn any_shows_applet(panels: Seq<Option<Panel>>) -> bool {
    exists|i: int| 0 <= i < panels.len() && shows_applet(#[trigger] panels[i])
}

/// Whether one of `ids` is [`APP_ID`].
fn names_applet(ids: &Vec<String>) -> (found: bool)
    ensures
        found == lists_applet(ids@),
{
    let ghost views = string_views(ids@);
    for i in 0..ids.len()
        invariant
            views == string_views(ids@),
            forall|j: int| 0 <= j < i ==> views[j] != APP_ID@,
    {
        if same_text(ids[i].as_str(), APP_ID) {
            assert(views[i as int] == APP_ID@);
            return true;
        }
    }
    false
}

/// The config namespace of the panel named `entry`.
pub fn panel_config_name(entry: &str) -> (name: String)
    ensures
        name@ == "com.system76.CosmicPanel."@ + entry@,
{
    "com.system76.CosmicPanel.".to_owned().concat(entry)
}

/// Whether our applet is configured on any COSMIC panel or dock, given the
/// panels there are; one whose config could not be opened is `None`.
///
/// `None` for the panels, and so for the answer, means the question could not be
/// answered. Callers must read that as "assume it is there".
pub fn applet_on_panel(panels: &Option<Vec<Option<Panel>>>) -> (present: Option<bool>)
    ensures
        present is None <==> panels is None,
        present is Some ==> present->0 == any_shows_applet((panels->0)@),
{
    let all = match panels {
        Some(all) => all,
        None => {
            return None;
        },
    };
    for i in 0..all.len()
        invariant
            *panels == Some(*all),
            forall|j: int| 0 <= j < i ==> !shows_applet(#[trigger] all@[j]),
    {
        if let Some(panel) = &all[i] {
            if let Some(center) = &panel.center {
                if names_applet(center) {
                    assert(shows_applet(all@[i as int]));
                    return Some(true);
                }
            }
            if let Some(wings) = &panel.wings {
                if names_applet(&wings.0) || names_applet(&wings.1) {
                    assert(shows_applet(all@[i as int]));
                    return Some(true);
                }
            }
        }
    }
    Some(false)
}

/// Whether the system is configured to use 24-hour time, given what is stored;
/// 12-hour if unknown.
pub fn is_military_time(stored: Option<bool>) -> (military: bool)
    ensures
        military == or_else(stored, false),
{
    match stored {
        Some(military) => military,
        None => false,
    }
}

// ---------------------------------------------------------------------------
// Shared wording
// ---------------------------------------------------------------------------
/// Speaks for the toggle and both sliders: all of them go through the same
/// apply, so all of them cost a flicker.
pub const FLICKER_NOTE: &'static str = "Night light changes may briefly flicker the screen";

/// The ends of the temperature range, in Kelvin. [`MIN_KELVIN`] is a deep amber
/// and [`MAX_KELVIN`] is near enough untinted.
pub const MIN_KELVIN: u32 = 2500;

pub const MAX_KELVIN: u32 = 6500;

/// The temperature slider's own range, which is warmth rather than Kelvin: how
/// far the tint sits from neutral, so that dragging right warms the screen.
pub const MAX_WARMTH: u32 = MAX_KELVIN - MIN_KELVIN;

/// The captions under the temperature slider, left and right.
pub const WARMTH_ENDS: (&'static str, &'static str) = ("Less warm", "More warm");

/// `value` brought between two ends.
pub open spec fn clamped(value: int, low: int, high: int) -> int {
    if value < low {
        low
    } else if value > high {
        high
    } else {
        value
    }
}

/// Where a temperature sits on the warmth track.
pub fn warmth_of(kelvin: u32) -> (warmth: u32)
    ensures
        warmth == clamped(MAX_KELVIN - kelvin, 0, MAX_WARMTH as int),
{
    if kelvin > MAX_KELVIN {
        0
    } else if kelvin < MIN_KELVIN {
        MAX_WARMTH
    } else {
        MAX_KELVIN - kelvin
    }
}

/// The temperature a warmth track position means.
pub fn kelvin_of(warmth: u32) -> (kelvin: u32)
    ensures
        kelvin == clamped(MAX_KELVIN - warmth, MIN_KELVIN as int, MAX_KELVIN as int),
{
    if warmth > MAX_WARMTH {
        MIN_KELVIN
    } else {
        MAX_KELVIN - warmth
    }
}

/// **Law.** Warmth and Kelvin are inverses over the slider's whole range.
pub proof fn warmth_and_kelvin_undo_each_other(kelvin: int, warmth: int)
    ensures
        MIN_KELVIN <= kelvin <= MAX_KELVIN ==> clamped(
            MAX_KELVIN - clamped(MAX_KELVIN - kelvin, 0, MAX_WARMTH as int),
            MIN_KELVIN as int,
            MAX_KELVIN as int,
        ) == kelvin,
        0 <= warmth <= MAX_WARMTH ==> clamped(
            MAX_KELVIN - clamped(MAX_KELVIN - warmth, MIN_KELVIN as int, MAX_KELVIN as int),
            0,
            MAX_WARMTH as int,
        ) == warmth,
{
}

/// **Law.** More warmth never means a higher temperature, and within the track
/// always means a lower one.
pub proof fn more_warmth_is_a_lower_temperature(less: int, more: int)
    requires
        0 <= less < more,
    ensures
        clamped(MAX_KELVIN - more, MIN_KELVIN as int, MAX_KELVIN as int) <= clamped(
            MAX_KELVIN - less,
            MIN_KELVIN as int,
            MAX_KELVIN as int,
        ),
        more <= MAX_WARMTH ==> clamped(MAX_KELVIN - more, MIN_KELVIN as int, MAX_KELVIN as int)
            < clamped(MAX_KELVIN - less, MIN_KELVIN as int, MAX_KELVIN as int),
{
}

/// The line under the "Night Light" toggle.
pub open spec fn status_line(
    settings: Settings,
    tint_on: bool,
    sun: Option<SunTimes>,
    military: bool,
) -> Seq<char> {
    match settings.window_with(sun) {
        None => if tint_on {
            "On"@
        } else {
            "Off"@
        },
        Some((sunset, sunrise)) => if tint_on {
            "On Until "@ + time_text(sunrise as int, military)
        } else {
            "Off Until "@ + time_text(sunset as int, military)
        },
    }
}

/// The line under the "Night Light" toggle. On a schedule it names the time the
/// current state runs out; with no schedule there is nothing to count down to.
///
/// `tint_on` is passed in rather than recomputed so the caller's toggle and this
/// text can't disagree if the clock ticks over a boundary between the two.
pub fn status_text(
    settings: &Settings,
    tint_on: bool,
    sun: Option<SunTimes>,
    military: bool,
) -> (text: String)
    ensures
        text@ == status_line(*settings, tint_on, sun, military),
{
    match settings.window(sun) {
        None => if tint_on {
            "On".to_owned()
        } else {
            "Off".to_owned()
        },
        Some((sunset, sunrise)) => if tint_on {
            "On Until ".to_owned().concat(format_time(sunrise, military).as_str())
        } else {
            "Off Until ".to_owned().concat(format_time(sunset, military).as_str())
        },
    }
}

} // verus!
