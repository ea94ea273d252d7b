//! The panel applet: what it shows, and what it does about each thing that
//! happens to it.

use crate::config::{
    a_stored_value_reads_back, after_write, clamped, handler_view, loaded, resync, status_line,
    status_text, store_override, store_temperature, warmth_of, ConfigWrite, Override, Settings,
    Store, StoreView, FLICKER_NOTE, MAX_KELVIN, MAX_WARMTH, WARMTH_ENDS,
};
use crate::host::HostSetup;
use crate::screen::{
    apply_if_tinted, pushing, show_current, showing, temperature_label, temperature_text,
    ScreenChange,
};
use crate::tick::{
    decide, decided_settings, decided_store, deciding_keeps_the_snapshot_in_step, override_for,
    the_toggle_means_what_it_shows, toggle_override, Moment,
};
use vstd::prelude::*;

verus! {

/// The applet's state.
#[derive(Clone, Copy, Debug, PartialEq, Eq, Structural)]
pub struct NightLightApplet {
    /// Whether the popup is open.
    pub popup: bool,
    /// The last snapshot of the shared settings. Whether the tint is on is
    /// derived from this and the clock every time, never kept.
    pub settings: Settings,
    /// The slider's live position in Kelvin, which runs ahead of the stored
    /// temperature while a drag is in progress.
    pub temperature: u32,
    /// Whether the slider is being dragged, so an incoming change doesn't yank
    /// the handle out from under the pointer.
    pub dragging: bool,
}

/// Something that happens to the applet.
#[derive(Clone, Copy, Debug, PartialEq, Eq, Structural)]
pub enum Message {
    PopupOpened,
    PopupClosed,
    Toggle(bool),
    TemperatureChanged(u32),
    TemperatureCommitted,
    OpenSettings,
    ConfigUpdated(Settings),
    /// The tick, with what the host still needs.
    Tick(HostSetup),
    /// A toggle's apply came back. `previous` is the override to fall back to if
    /// it didn't land.
    ToggleFinished { previous: Override, applied: bool },
}

/// What the applet does about it, outside its own state.
#[derive(Clone, Copy, Debug, PartialEq, Eq, Structural)]
pub enum AppletEffect {
    Nothing,
    Screen(ScreenChange),
    /// Open the settings window, and close the popup if it is open.
    OpenSettings { close_popup: bool },
}

impl NightLightApplet {
    /// The applet with a new snapshot. The slider follows only when it is not
    /// being dragged.
    pub open spec fn with_snapshot(self, settings: Settings) -> NightLightApplet {
        NightLightApplet {
            settings,
            temperature: if self.dragging {
                self.temperature
            } else {
                settings.temperature
            },
            ..self
        }
    }

    /// The applet with an override.
    pub open spec fn with_override(self, value: Override) -> NightLightApplet {
        NightLightApplet { settings: Settings { tint_override: value, ..self.settings }, ..self }
    }

    /// The applet after a message.
    pub open spec fn after(
        self,
        store: Option<StoreView>,
        message: Message,
        moment: Moment,
    ) -> NightLightApplet {
        match message {
            Message::PopupOpened => NightLightApplet { popup: true, ..self },
            Message::PopupClosed => NightLightApplet { popup: false, ..self },
            Message::Toggle(on) => self.with_override(
                override_for(self.settings, on, moment),
            ),
            Message::ToggleFinished { previous, applied } => if applied {
                self
            } else {
                self.with_override(previous)
            },
            Message::TemperatureChanged(kelvin) => NightLightApplet {
                temperature: kelvin,
                dragging: true,
                ..self
            },
            Message::TemperatureCommitted => NightLightApplet {
                dragging: false,
                settings: Settings { temperature: self.temperature, ..self.settings },
                ..self
            },
            Message::OpenSettings => NightLightApplet { popup: false, ..self },
            Message::ConfigUpdated(settings) => self.with_snapshot(settings),
            Message::Tick(setup) => {
                let synced = self.with_snapshot(loaded(store));
                NightLightApplet {
                    settings: decided_settings(
                        synced.settings,
                        setup == HostSetup::Ready,
                        moment,
                    ),
                    ..synced
                }
            },
        }
    }

    /// The store after a message.
    pub open spec fn stored(
        self,
        store: Option<StoreView>,
        message: Message,
        moment: Moment,
    ) -> Option<StoreView> {
        match message {
            Message::Toggle(on) => after_write(
                store,
                ConfigWrite::Override(override_for(self.settings, on, moment)),
            ),
            Message::ToggleFinished { previous, applied } => if applied {
                store
            } else {
                after_write(store, ConfigWrite::Override(previous))
            },
            Message::TemperatureCommitted => after_write(
                store,
                ConfigWrite::Temperature(self.temperature),
            ),
            Message::Tick(setup) => decided_store(
                store,
                loaded(store),
                setup == HostSetup::Ready,
                moment,
            ),
            _ => store,
        }
    }

    /// What is done about a message outside the applet's state.
    pub open spec fn effect(
        self,
        store: Option<StoreView>,
        message: Message,
        moment: Moment,
    ) -> AppletEffect {
        let after = self.after(store, message, moment);
        match message {
            Message::Toggle(on) => AppletEffect::Screen(
                ScreenChange::Toggle {
                    state: if on {
                        Some(self.temperature)
                    } else {
                        None
                    },
                    brightness: self.settings.brightness,
                    previous: self.settings.tint_override,
                },
            ),
            Message::TemperatureCommitted => match pushing(after.settings, moment) {
                Some(change) => AppletEffect::Screen(change),
                None => AppletEffect::Nothing,
            },
            Message::OpenSettings => AppletEffect::OpenSettings { close_popup: self.popup },
            Message::ConfigUpdated(_) => AppletEffect::Screen(
                showing(after.settings, moment),
            ),
            Message::Tick(_) => AppletEffect::Screen(showing(after.settings, moment)),
            _ => AppletEffect::Nothing,
        }
    }

    /// The applet as it starts, over what the store holds.
    pub fn init(handler: &Option<Store>) -> (applet: NightLightApplet)
        ensures
            applet == (NightLightApplet {
                popup: false,
                settings: loaded(handler_view(*handler)),
                temperature: loaded(handler_view(*handler)).temperature,
                dragging: false,
            }),
    {
        let settings = Settings::load_from(handler);
        NightLightApplet { popup: false, settings, temperature: settings.temperature, dragging: false }
    }

    /// Re-reads the stored settings, so a snapshot that has drifted from the
    /// store is corrected instead of fought over.
    fn resync(&mut self, handler: &Option<Store>)
        ensures
            *final(self) == old(self).with_snapshot(loaded(handler_view(*handler))),
    {
        resync(handler, &mut self.settings);
        if !self.dragging {
            self.temperature = self.settings.temperature;
        }
    }

    /// Does what a message asks for.
    pub fn update(
        &mut self,
        handler: &mut Option<Store>,
        message: Message,
        moment: Moment,
    ) -> (effect: AppletEffect)
        ensures
            *final(self) == old(self).after(handler_view(*old(handler)), message, moment),
            handler_view(*final(handler)) == old(self).stored(
                handler_view(*old(handler)),
                message,
                moment,
            ),
            effect == old(self).effect(handler_view(*old(handler)), message, moment),
    {
        match message {
            Message::PopupOpened => {
                self.popup = true;
            },
            Message::PopupClosed => {
                self.popup = false;
            },
            Message::Toggle(on) => {
                let value = toggle_override(&self.settings, on, moment);
                let previous = self.settings.tint_override;
                self.settings.tint_override = value;
                store_override(handler, value);
                return AppletEffect::Screen(
                    ScreenChange::Toggle {
                        state: if on {
                            Some(self.temperature)
                        } else {
                            None
                        },
                        brightness: self.settings.brightness,
                        previous,
                    },
                );
            },
            Message::ToggleFinished { previous, applied } => {
                // The apply is what makes a toggle true. When it doesn't land,
                // leaving the toggle where the user clicked would have it
                // describing a screen that never changed.
                if !applied {
                    self.settings.tint_override = previous;
                    store_override(handler, previous);
                }
            },
            Message::TemperatureChanged(kelvin) => {
                self.temperature = kelvin;
                self.dragging = true;
            },
            Message::TemperatureCommitted => {
                self.dragging = false;
                self.settings.temperature = self.temperature;
                store_temperature(handler, self.settings.temperature);
                if let Some(change) = apply_if_tinted(&self.settings, moment) {
                    return AppletEffect::Screen(change);
                }
            },
            Message::OpenSettings => {
                let close_popup = self.popup;
                self.popup = false;
                return AppletEffect::OpenSettings { close_popup };
            },
            Message::ConfigUpdated(settings) => {
                self.settings = settings;
                if !self.dragging {
                    self.temperature = settings.temperature;
                }
                return AppletEffect::Screen(show_current(&self.settings, moment));
            },
            Message::Tick(setup) => {
                // Before anything decides: the steps below reconcile the screen
                // against this snapshot, so a stale one doesn't just draw wrong,
                // it fights the settings window for the screen every tick.
                self.resync(handler);
                decide(handler, &mut self.settings, setup, moment);
                return AppletEffect::Screen(show_current(&self.settings, moment));
            },
        }
        AppletEffect::Nothing
    }
}

// ---------------------------------------------------------------------------
// What it shows
// ---------------------------------------------------------------------------
/// What pressing the panel button does.
#[derive(Clone, Copy, Debug, PartialEq, Eq, Structural)]
pub enum ButtonPress {
    OpenPopup,
    ClosePopup,
}

/// The panel button.
#[derive(Clone, Copy, Debug)]
pub struct PanelButton {
    pub icon: &'static str,
    pub tooltip: &'static str,
    /// The tooltip is held back while the popup is open.
    pub popup: bool,
    pub press: ButtonPress,
}

/// The popup's contents: the toggle, the temperature slider, and the button that
/// opens the settings window.
#[derive(Debug)]
pub struct PopupContent {
    pub title: &'static str,
    pub status: String,
    pub tint_on: bool,
    pub temperature: String,
    /// The slider's position: the track runs in warmth rather than Kelvin, so
    /// dragging right warms the screen.
    pub warmth: u32,
    /// The captions under the slider, left and right.
    pub ends: (&'static str, &'static str),
    /// A footnote to the whole group of controls: all of them flicker.
    pub note: &'static str,
    pub settings_button: &'static str,
}

/// The icon for a tint that is on or off.
pub open spec fn icon_name(tint_on: bool) -> Seq<char> {
    if tint_on {
        "weather-clear-night-symbolic"@
    } else {
        "weather-clear-symbolic"@
    }
}

impl NightLightApplet {
    /// The panel button as it is to be drawn now.
    pub fn view(&self, moment: Moment) -> (button: PanelButton)
        ensures
            button.icon@ == icon_name(self.settings.on_at(moment)),
            button.tooltip@ == "Night Light"@,
            button.popup == self.popup,
            button.press == (if self.popup {
                ButtonPress::ClosePopup
            } else {
                ButtonPress::OpenPopup
            }),
    {
        PanelButton {
            icon: if self.settings.tint_on_at(moment.minute_of_day, moment.sun) {
                "weather-clear-night-symbolic"
            } else {
                "weather-clear-symbolic"
            },
            tooltip: "Night Light",
            popup: self.popup,
            press: if self.popup {
                ButtonPress::ClosePopup
            } else {
                ButtonPress::OpenPopup
            },
        }
    }

    /// The popup's contents as they are to be drawn now. The toggle and its
    /// status line go by one verdict, so they cannot disagree.
    pub fn popup_content(&self, moment: Moment, military: bool) -> (content: PopupContent)
        ensures
            content.title@ == "Night Light"@,
            content.tint_on == self.settings.on_at(moment),
            content.status@ == status_line(
                self.settings,
                self.settings.on_at(moment),
                moment.sun,
                military,
            ),
            content.temperature@ == temperature_text(self.temperature as int),
            content.warmth == clamped(MAX_KELVIN - self.temperature, 0, MAX_WARMTH as int),
            content.ends.0@ == "Less warm"@,
            content.ends.1@ == "More warm"@,
            content.note@ == FLICKER_NOTE@,
            content.settings_button@ == "Night Light Settings..."@,
    {
        let tint_on = self.settings.tint_on_at(moment.minute_of_day, moment.sun);
        PopupContent {
            title: "Night Light",
            status: status_text(&self.settings, tint_on, moment.sun, military),
            tint_on,
            temperature: temperature_label(self.temperature),
            warmth: warmth_of(self.temperature),
            ends: WARMTH_ENDS,
            note: FLICKER_NOTE,
            settings_button: "Night Light Settings...",
        }
    }
}

// ---------------------------------------------------------------------------
// What holds of it
// ---------------------------------------------------------------------------
/// **Law.** A toggle that doesn't land is put back: the settings and the stored
/// override end up as they were before it was flipped.
pub proof fn a_toggle_that_fails_is_put_back(
    applet: NightLightApplet,
    store: StoreView,
    on: bool,
    flipped: Moment,
    finished: Moment,
)
    requires
        applet.settings == loaded(Some(store)),
    ensures
        ({
            let flip = Message::Toggle(on);
            let back = Message::ToggleFinished {
                previous: applet.settings.tint_override,
                applied: false,
            };
            let after = applet.after(Some(store), flip, flipped);
            let stored = applet.stored(Some(store), flip, flipped);
            &&& after.after(stored, back, finished) == applet
            &&& loaded(after.stored(stored, back, finished)) == loaded(Some(store))
        }),
{
    let first = ConfigWrite::Override(override_for(applet.settings, on, flipped));
    let second = ConfigWrite::Override(applet.settings.tint_override);
    a_stored_value_reads_back(store, first);
    a_stored_value_reads_back(store.after(first), second);
}

/// **Law.** Flipping the toggle makes the applet show what it was flipped to,
/// and asks the screen for just that.
pub proof fn the_toggle_shows_what_it_was_flipped_to(
    applet: NightLightApplet,
    store: Option<StoreView>,
    on: bool,
    moment: Moment,
)
    ensures
        ({
            let flip = Message::Toggle(on);
            let effect = applet.effect(store, flip, moment);
            &&& applet.after(store, flip, moment).settings.on_at(moment) == on
            &&& effect is Screen
            &&& effect->Screen_0 is Toggle
            &&& effect->Screen_0->Toggle_state == (if on {
                Some(applet.temperature)
            } else {
                None
            })
            &&& effect->Screen_0->Toggle_previous == applet.settings.tint_override
        }),
{
    the_toggle_means_what_it_shows(applet.settings, on, moment, moment);
}

/// **Law.** A drag owns the handle until it is released: neither a change from
/// elsewhere nor the tick moves it, and what is stored on release is where it
/// was dragged to.
pub proof fn a_drag_owns_the_handle(
    applet: NightLightApplet,
    store: Option<StoreView>,
    kelvin: u32,
    incoming: Settings,
    setup: HostSetup,
    moment: Moment,
)
    ensures
        ({
            let dragged = applet.after(store, Message::TemperatureChanged(kelvin), moment);
            let disturbed = dragged.after(
                store,
                Message::ConfigUpdated(incoming),
                moment,
            ).after(store, Message::Tick(setup), moment);
            let released = disturbed.after(store, Message::TemperatureCommitted, moment);
            &&& disturbed.temperature == kelvin
            &&& released.settings.temperature == kelvin
            &&& !released.dragging
            &&& disturbed.stored(store, Message::TemperatureCommitted, moment)
                == after_write(store, ConfigWrite::Temperature(kelvin))
        }),
{
}

/// **Law.** No change is answered with a write: an update from the store only
/// puts what it says on the screen.
pub proof fn a_change_is_not_answered_with_a_write(
    applet: NightLightApplet,
    store: Option<StoreView>,
    settings: Settings,
    moment: Moment,
)
    ensures
        ({
            let update = Message::ConfigUpdated(settings);
            &&& applet.stored(store, update, moment) == store
            &&& applet.after(store, update, moment).settings == settings
            &&& applet.effect(store, update, moment) == AppletEffect::Screen(
                showing(settings, moment),
            )
        }),
{
}

/// **Law.** A stale snapshot cannot outlive a tick: whatever two applets
/// believed before it, after a tick over one store they hold the same settings
/// and ask for the same screen, and those settings are what the store holds.
pub proof fn a_tick_leaves_nothing_stale(
    one: NightLightApplet,
    other: NightLightApplet,
    store: StoreView,
    setup: HostSetup,
    moment: Moment,
)
    ensures
        ({
            let tick = Message::Tick(setup);
            let settings = one.after(Some(store), tick, moment).settings;
            &&& settings == other.after(Some(store), tick, moment).settings
            &&& one.effect(Some(store), tick, moment) == other.effect(Some(store), tick, moment)
            &&& one.stored(Some(store), tick, moment) == other.stored(Some(store), tick, moment)
            &&& settings == loaded(one.stored(Some(store), tick, moment))
        }),
{
    deciding_keeps_the_snapshot_in_step(store, setup == HostSetup::Ready, moment);
}

} // verus!
