//! What is asked of the screen, and what the panel applet does and shows.

use crate::applet::{AppletEffect, ButtonPress, Message, NightLightApplet, PanelButton, PopupContent};
use crate::config::{
    handler_view, overrides_survive_their_keys, status_text, warmth_of, Override, Settings, Store,
};
use crate::deferral::defer_schedule_without_setup;
use crate::host::HostSetup;
use crate::screen::{apply_if_tinted, show_current, temperature_label, ScreenChange};
use crate::text::{decimal_value, lemma_decimal};
use crate::tick::{decide, toggle_override, Moment};
use vstd::prelude::*;

verus! {

/// **Law.** What puts the settings on the screen carries their brightness, and
/// their temperature exactly where the tint is on. It leaves a screen alone that
/// shows that already.
pub proof fn the_screen_is_asked_for_the_settings(
    settings: Settings,
    moment: Moment,
    on: bool,
    change: ScreenChange,
)
    requires
        call_ensures(show_current, (&settings, moment), change),
        call_ensures(Settings::tint_on_at, (&settings, moment.minute_of_day, moment.sun), on),
    ensures
        change is Reconcile,
        change->Reconcile_brightness == settings.brightness,
        on ==> change->Reconcile_state == Some(settings.temperature),
        !on ==> change->Reconcile_state is None,
{
}

/// **Law.** A change to the sliders is pushed exactly where the tint is on, with
/// the temperature and the brightness there are, whether or not the screen already
/// shows them.
pub proof fn the_sliders_are_pushed_while_on(
    settings: Settings,
    moment: Moment,
    on: bool,
    change: Option<ScreenChange>,
)
    requires
        call_ensures(apply_if_tinted, (&settings, moment), change),
        call_ensures(Settings::tint_on_at, (&settings, moment.minute_of_day, moment.sun), on),
    ensures
        change is Some <==> on,
        change matches Some(c) ==> {
            &&& c is Force
            &&& c->Force_state == Some(settings.temperature)
            &&& c->Force_brightness == settings.brightness
        },
{
}

/// **Law.** A temperature label spells out the temperature, up to the largest
/// there is room for.
pub proof fn a_label_spells_out_the_temperature(kelvin: u32, label: String)
    requires
        call_ensures(temperature_label, (kelvin,), label),
    ensures
        ({
            let n = label@.len() as int;
            &&& n > 14
            &&& label@.take(13) == "Temperature: "@
            &&& label@[n - 1] == 'K'
            &&& decimal_value(label@.subrange(13, n - 1)) == (if kelvin > 2_147_483_647 {
                2_147_483_647int
            } else {
                kelvin as int
            })
        }),
{
    reveal_strlit("Temperature: ");
    reveal_strlit("K");
    let shown = (if kelvin > 2_147_483_647 {
        2_147_483_647int
    } else {
        kelvin as int
    }) as nat;
    lemma_decimal(shown);
    let digits = crate::text::decimal(shown);
    let n = label@.len() as int;
    assert(label@ =~= "Temperature: "@ + digits + "K"@);
    assert(label@.take(13) =~= "Temperature: "@);
    assert(label@.subrange(13, n - 1) =~= digits);
}

// ---------------------------------------------------------------------------
// The applet
// ---------------------------------------------------------------------------
/// **Law.** The applet starts from what the store holds, with its slider there, no
/// drag under way and no popup.
pub proof fn the_applet_starts_from_the_store(
    handler: Option<Store>,
    settings: Settings,
    applet: NightLightApplet,
)
    requires
        call_ensures(NightLightApplet::init, (&handler,), applet),
        call_ensures(Settings::load_from, (&handler,), settings),
    ensures
        applet.settings == settings,
        applet.temperature == settings.temperature,
        !applet.dragging,
        !applet.popup,
{
}

/// **Law.** Flipping the applet's toggle sets the override that flipping means,
/// here and in the store, and asks the screen for the slider's temperature and the
/// set brightness, or for none. Nothing else changes.
pub proof fn the_applets_toggle_sets_the_override(
    applet: &mut NightLightApplet,
    handler: &mut Option<Store>,
    on: bool,
    moment: Moment,
    effect: AppletEffect,
    value: Override,
    before: Settings,
    after: Settings,
)
    requires
        call_ensures(
            NightLightApplet::update,
            (applet, handler, Message::Toggle(on), moment),
            effect,
        ),
        call_ensures(toggle_override, (&old(applet).settings, on, moment), value),
        call_ensures(Settings::load_from, (&*old(handler),), before),
        call_ensures(Settings::load_from, (&*final(handler),), after),
    ensures
        *final(applet) == (NightLightApplet {
            settings: Settings { tint_override: value, ..old(applet).settings },
            ..*old(applet)
        }),
        *old(handler) is Some ==> after == (Settings { tint_override: value, ..before }),
        effect is Screen,
        effect->Screen_0 is Toggle,
        effect->Screen_0->Toggle_previous == old(applet).settings.tint_override,
        effect->Screen_0->Toggle_brightness == old(applet).settings.brightness,
        on ==> effect->Screen_0->Toggle_state == Some(old(applet).temperature),
        !on ==> effect->Screen_0->Toggle_state is None,
{
    overrides_survive_their_keys(value);
}

/// **Law.** A toggle that did not land is put back, here and in the store; one
/// that did is left alone. Nothing is asked of the screen.
pub proof fn the_applet_puts_a_failed_toggle_back(
    applet: &mut NightLightApplet,
    handler: &mut Option<Store>,
    previous: Override,
    applied: bool,
    moment: Moment,
    effect: AppletEffect,
    before: Settings,
    after: Settings,
)
    requires
        call_ensures(
            NightLightApplet::update,
            (applet, handler, (Message::ToggleFinished { previous, applied }), moment),
            effect,
        ),
        call_ensures(Settings::load_from, (&*old(handler),), before),
        call_ensures(Settings::load_from, (&*final(handler),), after),
    ensures
        effect == AppletEffect::Nothing,
        applied ==> *final(applet) == *old(applet) && after == before,
        !applied ==> *final(applet) == (NightLightApplet {
            settings: Settings { tint_override: previous, ..old(applet).settings },
            ..*old(applet)
        }),
        !applied && *old(handler) is Some ==> after == (Settings {
            tint_override: previous,
            ..before
        }),
{
    overrides_survive_their_keys(previous);
}

/// **Law.** Dragging the applet's slider moves the slider alone; releasing it sets
/// and stores the temperature it stands at, and pushes it exactly where the tint is
/// on.
pub proof fn the_applets_slider_sets_the_temperature(
    applet: &mut NightLightApplet,
    handler: &mut Option<Store>,
    kelvin: u32,
    moment: Moment,
    effect: AppletEffect,
)
    requires
        call_ensures(
            NightLightApplet::update,
            (applet, handler, Message::TemperatureChanged(kelvin), moment),
            effect,
        ),
    ensures
        *final(applet) == (NightLightApplet {
            temperature: kelvin,
            dragging: true,
            ..*old(applet)
        }),
        handler_view(*final(handler)) == handler_view(*old(handler)),
        effect == AppletEffect::Nothing,
{
}

/// **Law.** Releasing the applet's slider sets and stores the temperature it stands
/// at, and pushes it with the set brightness exactly where the tint is on.
pub proof fn releasing_the_applets_slider_stores_it(
    applet: &mut NightLightApplet,
    handler: &mut Option<Store>,
    moment: Moment,
    effect: AppletEffect,
    before: Settings,
    after: Settings,
    on: bool,
)
    requires
        call_ensures(
            NightLightApplet::update,
            (applet, handler, Message::TemperatureCommitted, moment),
            effect,
        ),
        call_ensures(Settings::load_from, (&*old(handler),), before),
        call_ensures(Settings::load_from, (&*final(handler),), after),
        call_ensures(
            Settings::tint_on_at,
            (&old(applet).settings, moment.minute_of_day, moment.sun),
            on,
        ),
    ensures
        *final(applet) == (NightLightApplet {
            dragging: false,
            settings: Settings { temperature: old(applet).temperature, ..old(applet).settings },
            ..*old(applet)
        }),
        *old(handler) is Some ==> after == (Settings {
            temperature: old(applet).temperature,
            ..before
        }),
        !on ==> effect == AppletEffect::Nothing,
        on ==> effect == AppletEffect::Screen(
            ScreenChange::Force {
                state: Some(old(applet).temperature),
                brightness: old(applet).settings.brightness,
            },
        ),
{
}

/// **Law.** A change in the store replaces the applet's settings, moves its slider
/// unless it is being dragged, and puts them on the screen; nothing is stored.
pub proof fn the_applet_shows_a_changed_store(
    applet: &mut NightLightApplet,
    handler: &mut Option<Store>,
    settings: Settings,
    moment: Moment,
    effect: AppletEffect,
    change: ScreenChange,
)
    requires
        call_ensures(
            NightLightApplet::update,
            (applet, handler, Message::ConfigUpdated(settings), moment),
            effect,
        ),
        call_ensures(show_current, (&settings, moment), change),
    ensures
        handler_view(*final(handler)) == handler_view(*old(handler)),
        final(applet).settings == settings,
        final(applet).temperature == (if old(applet).dragging {
            old(applet).temperature
        } else {
            settings.temperature
        }),
        final(applet).dragging == old(applet).dragging,
        final(applet).popup == old(applet).popup,
        effect == AppletEffect::Screen(change),
{
}

/// **Law.** The applet's tick starts from what the store holds: what it ends with
/// and stores is what the tick's decisions make of that, and it puts that on the
/// screen. The slider follows the store unless it is being dragged.
pub proof fn the_applets_tick_decides_over_the_store(
    applet: &mut NightLightApplet,
    handler: &mut Option<Store>,
    setup: HostSetup,
    moment: Moment,
    effect: AppletEffect,
    other: &mut Option<Store>,
    settings: &mut Settings,
    stored: Settings,
    change: ScreenChange,
)
    requires
        call_ensures(
            NightLightApplet::update,
            (applet, handler, Message::Tick(setup), moment),
            effect,
        ),
        call_ensures(Settings::load_from, (&*old(handler),), stored),
        handler_view(*old(other)) == handler_view(*old(handler)),
        *old(settings) == stored,
        call_ensures(decide, (other, settings, setup, moment), ()),
        call_ensures(show_current, (&*final(settings), moment), change),
    ensures
        final(applet).settings == *final(settings),
        handler_view(*final(handler)) == handler_view(*final(other)),
        final(applet).temperature == (if old(applet).dragging {
            old(applet).temperature
        } else {
            stored.temperature
        }),
        final(applet).dragging == old(applet).dragging,
        final(applet).popup == old(applet).popup,
        effect == AppletEffect::Screen(change),
{
}

/// **Law.** The popup opens and closes, and nothing else comes of it. Opening the
/// settings window closes a popup that is open.
pub proof fn the_popup_opens_and_closes(
    applet: &mut NightLightApplet,
    handler: &mut Option<Store>,
    message: Message,
    moment: Moment,
    effect: AppletEffect,
)
    requires
        call_ensures(NightLightApplet::update, (applet, handler, message, moment), effect),
        message == Message::PopupOpened || message == Message::PopupClosed || message
            == Message::OpenSettings,
    ensures
        handler_view(*final(handler)) == handler_view(*old(handler)),
        *final(applet) == (NightLightApplet {
            popup: message == Message::PopupOpened,
            ..*old(applet)
        }),
        message != Message::OpenSettings ==> effect == AppletEffect::Nothing,
        message == Message::OpenSettings ==> effect == (AppletEffect::OpenSettings {
            close_popup: old(applet).popup,
        }),
{
}

/// **Law.** The panel shows a moon exactly while the tint is on, and its button
/// opens the popup exactly while there is none.
pub proof fn the_panel_shows_the_tint(
    applet: NightLightApplet,
    moment: Moment,
    on: bool,
    button: PanelButton,
)
    requires
        call_ensures(NightLightApplet::view, (&applet, moment), button),
        call_ensures(
            Settings::tint_on_at,
            (&applet.settings, moment.minute_of_day, moment.sun),
            on,
        ),
    ensures
        on ==> button.icon@ == "weather-clear-night-symbolic"@,
        !on ==> button.icon@ == "weather-clear-symbolic"@,
        button.press == ButtonPress::OpenPopup <==> !applet.popup,
        button.popup == applet.popup,
        button.tooltip@ == "Night Light"@,
{
}

/// **Law.** The popup shows the tint, the status line that goes with it, and the
/// slider's temperature, with the slider at its place on the track.
pub proof fn the_popup_shows_the_slider_and_the_state(
    applet: NightLightApplet,
    moment: Moment,
    military: bool,
    content: PopupContent,
    on: bool,
    status: String,
    label: String,
    warmth: u32,
)
    requires
        call_ensures(NightLightApplet::popup_content, (&applet, moment, military), content),
        call_ensures(
            Settings::tint_on_at,
            (&applet.settings, moment.minute_of_day, moment.sun),
            on,
        ),
        call_ensures(status_text, (&applet.settings, on, moment.sun, military), status),
        call_ensures(temperature_label, (applet.temperature,), label),
        call_ensures(warmth_of, (applet.temperature,), warmth),
    ensures
        content.tint_on == on,
        content.status@ == status@,
        content.temperature@ == label@,
        content.warmth == warmth,
        content.ends.0@ == "Less warm"@,
        content.ends.1@ == "More warm"@,
        content.note@ == "Night light changes may briefly flicker the screen"@,
        content.title@ == "Night Light"@,
        content.settings_button@ == "Night Light Settings..."@,
{
}

// ---------------------------------------------------------------------------
// The tick's decisions
// ---------------------------------------------------------------------------
/// **Law.** Without a setup the schedule in force is parked and none is left;
/// with one, whatever is parked comes back. The rest of the settings is as it was.
pub proof fn a_schedule_is_parked_and_restored(
    handler: &mut Option<Store>,
    settings: &mut Settings,
    setup: HostSetup,
)
    requires
        call_ensures(defer_schedule_without_setup, (handler, settings, setup), ()),
    ensures
        *final(settings) == (Settings {
            schedule: final(settings).schedule,
            deferred_schedule: final(settings).deferred_schedule,
            ..*old(settings)
        }),
        ({
            let before = *old(settings);
            let after = *final(settings);
            let scheduled = before.schedule != crate::config::Schedule::Manual;
            &&& setup != HostSetup::Ready ==> after.schedule == crate::config::Schedule::Manual
            &&& setup != HostSetup::Ready && scheduled ==> after.deferred_schedule == Some(
                before.schedule,
            )
            &&& setup != HostSetup::Ready && !scheduled ==> after.deferred_schedule
                == before.deferred_schedule
            &&& setup == HostSetup::Ready ==> after.deferred_schedule is None
            &&& setup == HostSetup::Ready && before.deferred_schedule is Some ==> after.schedule
                == before.deferred_schedule->0
            &&& setup == HostSetup::Ready && before.deferred_schedule is None ==> after.schedule
                == before.schedule
        }),
{
}

/// **Law.** A snapshot in step with the store stays so while a schedule is parked
/// or restored, and while the tick decides.
pub proof fn the_tick_stores_what_it_decides(
    handler: &mut Option<Store>,
    settings: &mut Settings,
    setup: HostSetup,
    moment: Moment,
    before: Settings,
    after: Settings,
)
    requires
        call_ensures(decide, (handler, settings, setup, moment), ()),
        call_ensures(Settings::load_from, (&*old(handler),), before),
        call_ensures(Settings::load_from, (&*final(handler),), after),
        *old(handler) is Some,
        *old(settings) == before,
    ensures
        after == *final(settings),
        *final(handler) is Some,
{
    crate::tick::deciding_keeps_the_snapshot_in_step(
        handler_view(*old(handler))->0,
        setup == HostSetup::Ready,
        moment,
    );
}

/// **Law.** The tick parks or restores the schedule first and then lets an
/// override lapse that the schedule it is left with asks for anyway. The
/// temperature, the brightness and the typed times are not touched.
pub proof fn the_tick_parks_and_then_lapses(
    handler: &mut Option<Store>,
    settings: &mut Settings,
    setup: HostSetup,
    moment: Moment,
    other: &mut Option<Store>,
    parked: &mut Settings,
    wants: bool,
)
    requires
        call_ensures(decide, (handler, settings, setup, moment), ()),
        *old(parked) == *old(settings),
        call_ensures(defer_schedule_without_setup, (other, parked, setup), ()),
        call_ensures(
            Settings::schedule_wants_tint_at,
            (&*final(parked), moment.minute_of_day, moment.sun),
            wants,
        ),
    ensures
        *final(settings) == (Settings {
            tint_override: final(settings).tint_override,
            ..*final(parked)
        }),
        final(settings).temperature == old(settings).temperature,
        final(settings).brightness == old(settings).brightness,
        final(settings).sunrise_minutes == old(settings).sunrise_minutes,
        final(settings).sunset_minutes == old(settings).sunset_minutes,
        old(settings).tint_override == Override::On ==> final(settings).tint_override == (
        if wants {
            Override::Auto
        } else {
            Override::On
        }),
        old(settings).tint_override == Override::Off ==> final(settings).tint_override == (
        if wants {
            Override::Off
        } else {
            Override::Auto
        }),
        old(settings).tint_override == Override::Auto ==> final(settings).tint_override
            == Override::Auto,
{
}

} // verus!
