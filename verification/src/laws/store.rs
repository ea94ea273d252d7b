//! The config store: what goes in, what stays, and what is read back.

use crate::brightness::Brightness;
use crate::config::{
    handler_view, overrides_survive_their_keys, resync, schedules_survive_their_keys,
    store_brightness, store_deferred_schedule, store_override, store_schedule,
    store_sunrise_minutes, store_sunset_minutes, store_temperature, ConfigWrite, Override,
    Schedule, Settings, Store, StoreView,
};
use vstd::prelude::*;

verus! {

/// **Law.** The stored texts mean what they say: each override and schedule has
/// its own, the one an hour-based schedule was stored under means a custom one,
/// and anything else means none.
pub proof fn stored_texts_mean_what_they_say(
    key: &str,
    value: Override,
    schedule: Schedule,
)
    requires
        call_ensures(Override::from_key, (key,), value),
        call_ensures(Schedule::from_key, (key,), schedule),
    ensures
        value == Override::On <==> key@ == "on"@,
        value == Override::Off <==> key@ == "off"@,
        schedule == Schedule::Solar <==> key@ == "solar"@,
        schedule == Schedule::Custom <==> key@ == "custom"@ || key@ == "sunset"@,
{
    reveal_strlit("on");
    reveal_strlit("off");
    reveal_strlit("solar");
    reveal_strlit("custom");
    reveal_strlit("sunset");
    assert("on"@.len() != "off"@.len());
    assert("solar"@.len() != "custom"@.len());
    assert("solar"@.len() != "sunset"@.len());
}

/// **Law.** A value's stored text means that value again, and the dropdown's order
/// has each schedule at its own place.
pub proof fn a_stored_text_means_its_value(
    value: Override,
    schedule: Schedule,
    text: &'static str,
    name: &'static str,
    index: usize,
)
    requires
        call_ensures(Override::as_key, (value,), text),
        call_ensures(Schedule::as_key, (schedule,), name),
        call_ensures(Schedule::index, (schedule,), index),
    ensures
        value == Override::On <==> text@ == "on"@,
        value == Override::Off <==> text@ == "off"@,
        value == Override::Auto <==> text@ == "auto"@,
        schedule == Schedule::Manual <==> name@ == "manual"@,
        schedule == Schedule::Solar <==> name@ == "solar"@,
        schedule == Schedule::Custom <==> name@ == "custom"@,
        schedule == Schedule::Manual <==> index == 0,
        schedule == Schedule::Solar <==> index == 1,
        schedule == Schedule::Custom <==> index == 2,
{
    reveal_strlit("on");
    reveal_strlit("off");
    reveal_strlit("auto");
    reveal_strlit("manual");
    reveal_strlit("solar");
    reveal_strlit("custom");
    assert("on"@.len() == 2 && "off"@.len() == 3 && "auto"@.len() == 4);
    assert("solar"@.len() == 5 && "manual"@[0] == 'm' && "custom"@[0] == 'c');
}

/// **Law.** Each setting is read from its own key and from no other: the value
/// that is there, or the default where there is none. A time is read from its
/// minutes, and from its whole hours only without those.
pub proof fn each_setting_is_read_from_its_own_key(handler: Option<Store>, settings: Settings)
    requires
        call_ensures(Settings::load_from, (&handler,), settings),
    ensures
        ({
            let empty = StoreView {
                tint_override: None,
                temperature: None,
                brightness: None,
                schedule: None,
                deferred_schedule: None,
                sunrise_minutes: None,
                sunset_minutes: None,
                sunrise_hour: None,
                sunset_hour: None,
                pending: Seq::empty(),
            };
            let store = match handler {
                Some(store) => store@,
                None => empty,
            };
            &&& store.temperature is Some ==> settings.temperature == store.temperature->0
            &&& store.temperature is None ==> settings.temperature == 4500
            &&& store.brightness is Some ==> settings.brightness == store.brightness->0
            &&& store.brightness is None ==> settings.brightness.bits == 0x3ff0_0000_0000_0000u64
            &&& settings.tint_override == Override::On <==> store.tint_override == Some("on"@)
            &&& settings.tint_override == Override::Off <==> store.tint_override == Some("off"@)
            &&& settings.schedule == Schedule::Solar <==> store.schedule == Some("solar"@)
            &&& settings.schedule == Schedule::Custom <==> store.schedule == Some("custom"@)
                || store.schedule == Some("sunset"@)
            &&& settings.deferred_schedule == Some(Schedule::Solar) <==> store.deferred_schedule
                == Some("solar"@)
            &&& settings.deferred_schedule == Some(Schedule::Custom) <==> store.deferred_schedule
                == Some("custom"@) || store.deferred_schedule == Some("sunset"@)
            &&& settings.deferred_schedule != Some(Schedule::Manual)
            &&& store.sunrise_minutes is Some && store.sunrise_minutes->0 < 1440
                ==> settings.sunrise_minutes == store.sunrise_minutes->0
            &&& store.sunset_minutes is Some && store.sunset_minutes->0 < 1440
                ==> settings.sunset_minutes == store.sunset_minutes->0
            &&& store.sunrise_minutes is Some && store.sunrise_minutes->0 >= 1440
                ==> settings.sunrise_minutes == 1439
            &&& store.sunset_minutes is Some && store.sunset_minutes->0 >= 1440
                ==> settings.sunset_minutes == 1439
            &&& store.sunrise_minutes is None && store.sunrise_hour is Some && store.sunrise_hour->0
                < 24 ==> settings.sunrise_minutes == store.sunrise_hour->0 * 60
            &&& store.sunset_minutes is None && store.sunset_hour is Some && store.sunset_hour->0
                < 24 ==> settings.sunset_minutes == store.sunset_hour->0 * 60
            &&& store.sunrise_minutes is None && store.sunrise_hour is Some && store.sunrise_hour->0
                >= 24 ==> settings.sunrise_minutes == 1380
            &&& store.sunset_minutes is None && store.sunset_hour is Some && store.sunset_hour->0
                >= 24 ==> settings.sunset_minutes == 1380
            &&& store.sunrise_minutes is None && store.sunrise_hour is None
                ==> settings.sunrise_minutes == 360
            &&& store.sunset_minutes is None && store.sunset_hour is None
                ==> settings.sunset_minutes == 1080
        }),
{
    reveal_strlit("on");
    reveal_strlit("off");
    reveal_strlit("solar");
    reveal_strlit("custom");
    reveal_strlit("sunset");
    assert("on"@.len() != "off"@.len());
    assert("solar"@.len() != "custom"@.len());
    assert("solar"@.len() != "sunset"@.len());
}

/// **Law.** A snapshot that was put right is what the store reads as, whatever it
/// was before.
pub proof fn a_resync_reads_the_store(
    handler: Option<Store>,
    settings: &mut Settings,
    stored: Settings,
)
    requires
        call_ensures(resync, (&handler, settings), ()),
        call_ensures(Settings::load_from, (&handler,), stored),
    ensures
        *final(settings) == stored,
{
}

/// **Law.** The temperature goes under its own key, reads back, and leaves every other key
/// as it was. It is written only if something else was there.
pub proof fn storing_the_temperature_changes_it_alone(
    handler: &mut Option<Store>,
    value: u32,
    settings: Settings,
)
    requires
        call_ensures(store_temperature, (handler, value), ()),
        call_ensures(Settings::load_from, (&*final(handler),), settings),
    ensures
        *old(handler) is None ==> *final(handler) is None,
        *old(handler) is Some ==> {
            let before = handler_view(*old(handler))->0;
            let after = handler_view(*final(handler))->0;
            &&& *final(handler) is Some
            &&& after == (StoreView {
                temperature: after.temperature,
                pending: after.pending,
                ..before
            })
            &&& settings.temperature == value
            &&& before.temperature == Some(value) ==> after == before
            &&& !(before.temperature == Some(value)) ==> after.temperature == Some(value) && after.pending == before.pending.push(
                ConfigWrite::Temperature(value),
            )
        },
{
}

/// **Law.** The time the tint turns off goes under its own key, reads back, and leaves every other key
/// as it was. It is written only if something else was there.
pub proof fn storing_the_sunrise_changes_it_alone(
    handler: &mut Option<Store>,
    value: u32,
    settings: Settings,
)
    requires
        call_ensures(store_sunrise_minutes, (handler, value), ()),
        call_ensures(Settings::load_from, (&*final(handler),), settings),
    ensures
        *old(handler) is None ==> *final(handler) is None,
        *old(handler) is Some ==> {
            let before = handler_view(*old(handler))->0;
            let after = handler_view(*final(handler))->0;
            &&& *final(handler) is Some
            &&& after == (StoreView {
                sunrise_minutes: after.sunrise_minutes,
                pending: after.pending,
                ..before
            })
            &&& settings.sunrise_minutes == (if value < 1440 {
                    value
                } else {
                    1439
                })
            &&& before.sunrise_minutes == Some(value) ==> after == before
            &&& !(before.sunrise_minutes == Some(value)) ==> after.sunrise_minutes == Some(value) && after.pending == before.pending.push(
                ConfigWrite::SunriseMinutes(value),
            )
        },
{
}

/// **Law.** The time the tint turns on goes under its own key, reads back, and leaves every other key
/// as it was. It is written only if something else was there.
pub proof fn storing_the_sunset_changes_it_alone(
    handler: &mut Option<Store>,
    value: u32,
    settings: Settings,
)
    requires
        call_ensures(store_sunset_minutes, (handler, value), ()),
        call_ensures(Settings::load_from, (&*final(handler),), settings),
    ensures
        *old(handler) is None ==> *final(handler) is None,
        *old(handler) is Some ==> {
            let before = handler_view(*old(handler))->0;
            let after = handler_view(*final(handler))->0;
            &&& *final(handler) is Some
            &&& after == (StoreView {
                sunset_minutes: after.sunset_minutes,
                pending: after.pending,
                ..before
            })
            &&& settings.sunset_minutes == (if value < 1440 {
                    value
                } else {
                    1439
                })
            &&& before.sunset_minutes == Some(value) ==> after == before
            &&& !(before.sunset_minutes == Some(value)) ==> after.sunset_minutes == Some(value) && after.pending == before.pending.push(
                ConfigWrite::SunsetMinutes(value),
            )
        },
{
}

/// **Law.** The override goes under its own key, reads back, and leaves every other key
/// as it was. It is written only if something else was there.
pub proof fn storing_the_override_changes_it_alone(
    handler: &mut Option<Store>,
    value: Override,
    settings: Settings,
)
    requires
        call_ensures(store_override, (handler, value), ()),
        call_ensures(Settings::load_from, (&*final(handler),), settings),
    ensures
        *old(handler) is None ==> *final(handler) is None,
        *old(handler) is Some ==> {
            let before = handler_view(*old(handler))->0;
            let after = handler_view(*final(handler))->0;
            let name = match value {
                Override::Auto => "auto"@,
                Override::On => "on"@,
                Override::Off => "off"@,
            };
            &&& *final(handler) is Some
            &&& after == (StoreView {
                tint_override: after.tint_override,
                pending: after.pending,
                ..before
            })
            &&& settings.tint_override == value
            &&& before.tint_override == Some(name) ==> after == before
            &&& !(before.tint_override == Some(name)) ==> after.tint_override == Some(name) && after.pending == before.pending.push(
                ConfigWrite::Override(value),
            )
        },
{
    overrides_survive_their_keys(value);
}

/// **Law.** The schedule goes under its own key, reads back, and leaves every other key
/// as it was. It is written only if something else was there.
pub proof fn storing_the_schedule_changes_it_alone(
    handler: &mut Option<Store>,
    value: Schedule,
    settings: Settings,
)
    requires
        call_ensures(store_schedule, (handler, value), ()),
        call_ensures(Settings::load_from, (&*final(handler),), settings),
    ensures
        *old(handler) is None ==> *final(handler) is None,
        *old(handler) is Some ==> {
            let before = handler_view(*old(handler))->0;
            let after = handler_view(*final(handler))->0;
            let name = match value {
                Schedule::Manual => "manual"@,
                Schedule::Solar => "solar"@,
                Schedule::Custom => "custom"@,
            };
            &&& *final(handler) is Some
            &&& after == (StoreView {
                schedule: after.schedule,
                pending: after.pending,
                ..before
            })
            &&& settings.schedule == value
            &&& before.schedule == Some(name) ==> after == before
            &&& !(before.schedule == Some(name)) ==> after.schedule == Some(name) && after.pending == before.pending.push(
                ConfigWrite::Schedule(value),
            )
        },
{
    schedules_survive_their_keys(value);
}

/// **Law.** A parked schedule goes under its own key, reads back, and leaves every other key
/// as it was. It is written only if something else was there.
pub proof fn storing_the_parked_changes_it_alone(
    handler: &mut Option<Store>,
    value: Option<Schedule>,
    settings: Settings,
)
    requires
        call_ensures(store_deferred_schedule, (handler, value), ()),
        call_ensures(Settings::load_from, (&*final(handler),), settings),
    ensures
        *old(handler) is None ==> *final(handler) is None,
        *old(handler) is Some ==> {
            let before = handler_view(*old(handler))->0;
            let after = handler_view(*final(handler))->0;
            let parked = match value {
                Some(schedule) => schedule,
                None => Schedule::Manual,
            };
            let name = match parked {
                Schedule::Manual => "manual"@,
                Schedule::Solar => "solar"@,
                Schedule::Custom => "custom"@,
            };
            &&& *final(handler) is Some
            &&& after == (StoreView {
                deferred_schedule: after.deferred_schedule,
                pending: after.pending,
                ..before
            })
            &&& settings.deferred_schedule == (if parked == Schedule::Manual {
                    None
                } else {
                    value
                })
            &&& before.deferred_schedule == Some(name) ==> after == before
            &&& !(before.deferred_schedule == Some(name)) ==> after.deferred_schedule == Some(name) && after.pending == before.pending.push(
                ConfigWrite::DeferredSchedule(parked),
            )
        },
{
    schedules_survive_their_keys(
        match value {
            Some(schedule) => schedule,
            None => Schedule::Manual,
        },
    );
}

/// Whether two bit patterns are one number: the same pattern of a number, or the
/// two zeros.
pub open spec fn one_number(a: u64, b: u64) -> bool {
    let least = 0x8000_0000_0000_0000u64;
    let size_a = if a >= least {
        a - least
    } else {
        a as int
    };
    let size_b = if b >= least {
        b - least
    } else {
        b as int
    };
    size_a <= 0x7ff0_0000_0000_0000u64 && size_b <= 0x7ff0_0000_0000_0000u64 && (a == b || (size_a
        == 0 && size_b == 0))
}

/// **Law.** The brightness goes under its own key and leaves every other key as it
/// was. It is written only if another number was there.
pub proof fn storing_the_brightness_changes_it_alone(
    handler: &mut Option<Store>,
    value: Brightness,
    settings: Settings,
)
    requires
        call_ensures(store_brightness, (handler, value), ()),
        call_ensures(Settings::load_from, (&*final(handler),), settings),
    ensures
        *old(handler) is None ==> *final(handler) is None,
        *old(handler) is Some ==> {
            let before = handler_view(*old(handler))->0;
            let after = handler_view(*final(handler))->0;
            let held = before.brightness is Some && one_number(
                (before.brightness->0).bits,
                value.bits,
            );
            &&& *final(handler) is Some
            &&& after == (StoreView {
                brightness: after.brightness,
                pending: after.pending,
                ..before
            })
            &&& settings.brightness == value || one_number(settings.brightness.bits, value.bits)
            &&& held ==> after == before
            &&& !held ==> after.brightness == Some(value) && settings.brightness == value
                && after.pending == before.pending.push(ConfigWrite::Brightness(value))
        },
{
}

/// **Law.** Every kind of value has a key of its own.
pub proof fn every_kind_of_value_has_its_own_key(
    a: ConfigWrite,
    b: ConfigWrite,
    under: &'static str,
    beside: &'static str,
)
    requires
        call_ensures(ConfigWrite::key, (&a,), under),
        call_ensures(ConfigWrite::key, (&b,), beside),
        under@ == beside@,
    ensures
        a is Override <==> b is Override,
        a is Temperature <==> b is Temperature,
        a is Brightness <==> b is Brightness,
        a is Schedule <==> b is Schedule,
        a is DeferredSchedule <==> b is DeferredSchedule,
        a is SunriseMinutes <==> b is SunriseMinutes,
        a is SunsetMinutes <==> b is SunsetMinutes,
{
    reveal_strlit("override");
    reveal_strlit("temperature");
    reveal_strlit("brightness");
    reveal_strlit("schedule");
    reveal_strlit("deferred_schedule");
    reveal_strlit("sunrise_minutes");
    reveal_strlit("sunset_minutes");
    assert("override"@.len() == 8 && "temperature"@.len() == 11 && "brightness"@.len() == 10
        && "schedule"@.len() == 8 && "deferred_schedule"@.len() == 17 && "sunrise_minutes"@.len()
        == 15 && "sunset_minutes"@.len() == 14);
    assert("override"@[0] == 'o' && "schedule"@[0] == 's');
}

} // verus!
