//! What is stored is queued to be written: every operation that stores something
//! does to the store what the matching write does, writes and all.

use crate::applet::{self, AppletEffect, NightLightApplet};
use crate::config::{
    expire_override_at, handler_view, store_deferred_schedule, store_override, store_schedule,
    store_sunrise_minutes, store_sunset_minutes, store_temperature, Override, Schedule, Settings,
    Store,
};
use crate::deferral::{defer_schedule_without_setup, deferral, ScheduleDeferral};
use crate::host::HostSetup;
use crate::settings_window::{self, edit_time, Bound, SettingsWindow, TimePart, WindowEffect};
use crate::solar::SunTimes;
use crate::tick::{decide, toggle_override, Moment};
use vstd::prelude::*;

verus! {

/// **Law.** An override that lapses is stored as none; one that does not is not
/// stored.
pub proof fn a_lapse_is_queued(
    handler: &mut Option<Store>,
    settings: &mut Settings,
    minute: u32,
    sun: Option<SunTimes>,
    caught_up: bool,
    copy: &mut Option<Store>,
)
    requires
        call_ensures(expire_override_at, (handler, settings, minute, sun), ()),
        call_ensures(Settings::override_caught_up_at, (&*old(settings), minute, sun), caught_up),
        handler_view(*old(copy)) == handler_view(*old(handler)),
        call_ensures(store_override, (copy, Override::Auto), ()),
    ensures
        handler_view(*final(handler)) == (if caught_up {
            handler_view(*final(copy))
        } else {
            handler_view(*old(handler))
        }),
{
}

/// **Law.** A schedule that is parked or restored is stored with its parked
/// companion, in that order; otherwise nothing is stored.
pub proof fn a_deferral_is_queued(
    handler: &mut Option<Store>,
    settings: &mut Settings,
    setup: HostSetup,
    next: Option<ScheduleDeferral>,
    first: &mut Option<Store>,
    second: &mut Option<Store>,
)
    requires
        call_ensures(defer_schedule_without_setup, (handler, settings, setup), ()),
        call_ensures(
            deferral,
            (
                setup == HostSetup::Ready,
                old(settings).schedule,
                old(settings).deferred_schedule,
            ),
            next,
        ),
        handler_view(*old(first)) == handler_view(*old(handler)),
        next is Some ==> call_ensures(store_schedule, (first, (next->0).schedule), ()),
        handler_view(*old(second)) == handler_view(*final(first)),
        next is Some ==> call_ensures(store_deferred_schedule, (second, (next->0).deferred), ()),
    ensures
        next is Some ==> handler_view(*final(handler)) == handler_view(*final(second)),
        next is None ==> handler_view(*final(handler)) == handler_view(*old(handler))
            && *final(settings) == *old(settings),
        next matches Some(d) ==> final(settings).schedule == d.schedule
            && final(settings).deferred_schedule == d.deferred,
{
}

/// **Law.** What the tick decides is stored as it is decided: the deferral first,
/// and then the lapse.
pub proof fn decisions_are_queued(
    handler: &mut Option<Store>,
    settings: &mut Settings,
    setup: HostSetup,
    moment: Moment,
    copy: &mut Option<Store>,
    parked: &mut Settings,
    later: &mut Option<Store>,
    lapsed: &mut Settings,
)
    requires
        call_ensures(decide, (handler, settings, setup, moment), ()),
        handler_view(*old(copy)) == handler_view(*old(handler)),
        *old(parked) == *old(settings),
        call_ensures(defer_schedule_without_setup, (copy, parked, setup), ()),
        handler_view(*old(later)) == handler_view(*final(copy)),
        *old(lapsed) == *final(parked),
        call_ensures(
            expire_override_at,
            (later, lapsed, moment.minute_of_day, moment.sun),
            (),
        ),
    ensures
        *final(settings) == *final(lapsed),
        handler_view(*final(handler)) == handler_view(*final(later)),
{
}

/// **Law.** The applet's toggle queues the override it sets.
pub proof fn the_applets_toggle_is_queued(
    panel: &mut NightLightApplet,
    handler: &mut Option<Store>,
    on: bool,
    value: Override,
    moment: Moment,
    effect: AppletEffect,
    copy: &mut Option<Store>,
)
    requires
        call_ensures(
            NightLightApplet::update,
            (panel, handler, applet::Message::Toggle(on), moment),
            effect,
        ),
        call_ensures(toggle_override, (&old(panel).settings, on, moment), value),
        handler_view(*old(copy)) == handler_view(*old(handler)),
        call_ensures(store_override, (copy, value), ()),
    ensures
        handler_view(*final(handler)) == handler_view(*final(copy)),
{
}

/// **Law.** The applet queues the override a failed toggle falls back to.
pub proof fn the_applets_failed_toggle_is_queued(
    panel: &mut NightLightApplet,
    handler: &mut Option<Store>,
    previous: Override,
    moment: Moment,
    effect: AppletEffect,
    copy: &mut Option<Store>,
)
    requires
        call_ensures(
            NightLightApplet::update,
            (panel, handler, (applet::Message::ToggleFinished { previous, applied: false }), moment),
            effect,
        ),
        handler_view(*old(copy)) == handler_view(*old(handler)),
        call_ensures(store_override, (copy, previous), ()),
    ensures
        handler_view(*final(handler)) == handler_view(*final(copy)),
{
}

/// **Law.** The applet queues the temperature its slider is released at.
pub proof fn the_applets_temperature_is_queued(
    panel: &mut NightLightApplet,
    handler: &mut Option<Store>,
    moment: Moment,
    effect: AppletEffect,
    copy: &mut Option<Store>,
)
    requires
        call_ensures(
            NightLightApplet::update,
            (panel, handler, applet::Message::TemperatureCommitted, moment),
            effect,
        ),
        handler_view(*old(copy)) == handler_view(*old(handler)),
        call_ensures(store_temperature, (copy, old(panel).temperature), ()),
    ensures
        handler_view(*final(handler)) == handler_view(*final(copy)),
{
}

/// **Law.** The window's toggle queues the override it sets.
pub proof fn the_windows_toggle_is_queued(
    window: &mut SettingsWindow,
    handler: &mut Option<Store>,
    on: bool,
    value: Override,
    moment: Moment,
    effects: Vec<WindowEffect>,
    copy: &mut Option<Store>,
)
    requires
        call_ensures(
            SettingsWindow::update,
            (window, handler, settings_window::Message::Toggle(on), moment),
            effects,
        ),
        call_ensures(toggle_override, (&old(window).settings, on, moment), value),
        handler_view(*old(copy)) == handler_view(*old(handler)),
        call_ensures(store_override, (copy, value), ()),
    ensures
        handler_view(*final(handler)) == handler_view(*final(copy)),
{
}

/// **Law.** The window queues the override a failed toggle falls back to.
pub proof fn the_windows_failed_toggle_is_queued(
    window: &mut SettingsWindow,
    handler: &mut Option<Store>,
    previous: Override,
    setup: HostSetup,
    moment: Moment,
    effects: Vec<WindowEffect>,
    copy: &mut Option<Store>,
)
    requires
        call_ensures(
            SettingsWindow::update,
            (window, handler, (settings_window::Message::ToggleFinished { previous, applied: false, setup }), moment),
            effects,
        ),
        handler_view(*old(copy)) == handler_view(*old(handler)),
        call_ensures(store_override, (copy, previous), ()),
    ensures
        handler_view(*final(handler)) == handler_view(*final(copy)),
{
}

/// **Law.** The window queues the temperature its slider is released at.
pub proof fn the_windows_temperature_is_queued(
    window: &mut SettingsWindow,
    handler: &mut Option<Store>,
    moment: Moment,
    effects: Vec<WindowEffect>,
    copy: &mut Option<Store>,
)
    requires
        call_ensures(
            SettingsWindow::update,
            (window, handler, settings_window::Message::TemperatureCommitted, moment),
            effects,
        ),
        handler_view(*old(copy)) == handler_view(*old(handler)),
        call_ensures(store_temperature, (copy, old(window).temperature), ()),
    ensures
        handler_view(*final(handler)) == handler_view(*final(copy)),
{
}

/// **Law.** The window queues a schedule it may keep, picked while the host is
/// ready or to have none.
pub proof fn a_picked_schedule_is_queued(
    window: &mut SettingsWindow,
    handler: &mut Option<Store>,
    index: usize,
    chosen: Schedule,
    moment: Moment,
    effects: Vec<WindowEffect>,
    copy: &mut Option<Store>,
)
    requires
        call_ensures(
            SettingsWindow::update,
            (window, handler, settings_window::Message::ScheduleSelected(index), moment),
            effects,
        ),
        index < 3,
        index == 0 ==> chosen == Schedule::Manual,
        index == 1 ==> chosen == Schedule::Solar,
        index == 2 ==> chosen == Schedule::Custom,
        chosen == Schedule::Manual || old(window).setup == HostSetup::Ready,
        handler_view(*old(copy)) == handler_view(*old(handler)),
        call_ensures(store_schedule, (copy, chosen), ()),
    ensures
        handler_view(*final(handler)) == handler_view(*final(copy)),
{
}

/// **Law.** The window queues a schedule whose setup has landed.
pub proof fn a_waiting_schedule_is_queued(
    window: &mut SettingsWindow,
    handler: &mut Option<Store>,
    error: Option<String>,
    moment: Moment,
    effects: Vec<WindowEffect>,
    copy: &mut Option<Store>,
)
    requires
        call_ensures(
            SettingsWindow::update,
            (window, handler, (settings_window::Message::HostSetupFinished { error, setup: HostSetup::Ready }), moment),
            effects,
        ),
        old(window).schedule_revert is Some,
        handler_view(*old(copy)) == handler_view(*old(handler)),
        call_ensures(store_schedule, (copy, old(window).settings.schedule), ()),
    ensures
        handler_view(*final(handler)) == handler_view(*final(copy)),
{
}

/// **Law.** The window queues the opening time that was picked.
pub proof fn a_picked_opening_is_queued(
    window: &mut SettingsWindow,
    handler: &mut Option<Store>,
    part: TimePart,
    edited: u32,
    moment: Moment,
    effects: Vec<WindowEffect>,
    copy: &mut Option<Store>,
)
    requires
        call_ensures(
            SettingsWindow::update,
            (window, handler, settings_window::Message::TimeSelected(Bound::Sunset, part), moment),
            effects,
        ),
        call_ensures(
            edit_time,
            (old(window).settings.sunset_minutes, part, old(window).military),
            edited,
        ),
        handler_view(*old(copy)) == handler_view(*old(handler)),
        call_ensures(store_sunset_minutes, (copy, edited), ()),
    ensures
        handler_view(*final(handler)) == handler_view(*final(copy)),
{
}

/// **Law.** The window queues the closing time that was picked.
pub proof fn a_picked_closing_is_queued(
    window: &mut SettingsWindow,
    handler: &mut Option<Store>,
    part: TimePart,
    edited: u32,
    moment: Moment,
    effects: Vec<WindowEffect>,
    copy: &mut Option<Store>,
)
    requires
        call_ensures(
            SettingsWindow::update,
            (window, handler, settings_window::Message::TimeSelected(Bound::Sunrise, part), moment),
            effects,
        ),
        call_ensures(
            edit_time,
            (old(window).settings.sunrise_minutes, part, old(window).military),
            edited,
        ),
        handler_view(*old(copy)) == handler_view(*old(handler)),
        call_ensures(store_sunrise_minutes, (copy, edited), ()),
    ensures
        handler_view(*final(handler)) == handler_view(*final(copy)),
{
}

} // verus!
