//! Parking a schedule that has no host setup under it.
//!
//! A schedule is the one setting that acts while nobody is watching, so it must
//! not outlive the helper that lets it act silently. Without the setup it drops
//! to manual and is remembered rather than discarded, and comes back once the
//! setup lands.

use crate::config::{
    a_stored_value_reads_back, after_write, handler_view, loaded, or_else, store_deferred_schedule,
    store_schedule, ConfigWrite, Schedule, Settings, Store, StoreView,
};
use crate::host::HostSetup;
use vstd::prelude::*;

verus! {

/// The schedule and its parked companion after a deferral pass.
#[derive(Clone, Copy, Debug, PartialEq, Eq, Structural)]
pub struct ScheduleDeferral {
    pub schedule: Schedule,
    pub deferred: Option<Schedule>,
}

/// What a deferral pass changes. Without a setup the live schedule is parked, in
/// place of anything parked before, since it is the more recent intent. With one,
/// whatever is parked comes back.
pub open spec fn deferred(
    ready: bool,
    schedule: Schedule,
    parked: Option<Schedule>,
) -> Option<ScheduleDeferral> {
    if !ready {
        if schedule != Schedule::Manual {
            Some(ScheduleDeferral { schedule: Schedule::Manual, deferred: Some(schedule) })
        } else {
            None
        }
    } else {
        match parked {
            Some(s) => Some(ScheduleDeferral { schedule: s, deferred: None }),
            None => None,
        }
    }
}

/// What [`defer_schedule_without_setup`] should write, or `None` when the two
/// values already agree with the host, which is every tick but the one that
/// changes something.
pub fn deferral(ready: bool, schedule: Schedule, parked: Option<Schedule>) -> (next: Option<
    ScheduleDeferral,
>)
    ensures
        next == deferred(ready, schedule, parked),
{
    if !ready {
        if schedule != Schedule::Manual {
            Some(ScheduleDeferral { schedule: Schedule::Manual, deferred: Some(schedule) })
        } else {
            None
        }
    } else {
        match parked {
            Some(schedule) => Some(ScheduleDeferral { schedule, deferred: None }),
            None => None,
        }
    }
}

/// The settings after a deferral pass.
pub open spec fn deferred_settings(ready: bool, settings: Settings) -> Settings {
    match deferred(ready, settings.schedule, settings.deferred_schedule) {
        Some(next) => Settings {
            schedule: next.schedule,
            deferred_schedule: next.deferred,
            ..settings
        },
        None => settings,
    }
}

/// The store after a deferral pass.
pub open spec fn deferred_store(
    ready: bool,
    settings: Settings,
    handler: Option<StoreView>,
) -> Option<StoreView> {
    match deferred(ready, settings.schedule, settings.deferred_schedule) {
        Some(next) => after_write(
            after_write(handler, ConfigWrite::Schedule(next.schedule)),
            ConfigWrite::DeferredSchedule(or_else(next.deferred, Schedule::Manual)),
        ),
        None => handler,
    }
}

/// Parks a schedule that has no host setup under it, and restores it once the
/// setup lands, in the snapshot and in the store alike. Every run mode does this
/// on its tick.
pub fn defer_schedule_without_setup(
    handler: &mut Option<Store>,
    settings: &mut Settings,
    setup: HostSetup,
)
    ensures
        *final(settings) == deferred_settings(setup == HostSetup::Ready, *old(settings)),
        handler_view(*final(handler)) == deferred_store(
            setup == HostSetup::Ready,
            *old(settings),
            handler_view(*old(handler)),
        ),
{
    let next = match deferral(
        setup == HostSetup::Ready,
        settings.schedule,
        settings.deferred_schedule,
    ) {
        Some(next) => next,
        None => {
            return;
        },
    };
    settings.schedule = next.schedule;
    settings.deferred_schedule = next.deferred;
    store_schedule(handler, next.schedule);
    store_deferred_schedule(handler, next.deferred);
}

/// **Law.** A settled schedule writes nothing: a second pass over the same host
/// changes neither the settings nor the store.
pub proof fn a_second_pass_changes_nothing(
    ready: bool,
    settings: Settings,
    handler: Option<StoreView>,
)
    ensures
        ({
            let once = deferred_settings(ready, settings);
            &&& deferred_settings(ready, once) == once
            &&& deferred_store(ready, once, handler) == handler
        }),
{
}

/// **Law.** Without a setup nothing is scheduled, and what was scheduled is
/// parked rather than dropped.
pub proof fn without_a_setup_nothing_is_scheduled(settings: Settings)
    ensures
        ({
            let after = deferred_settings(false, settings);
            &&& after.schedule == Schedule::Manual
            &&& after.deferred_schedule == (if settings.schedule != Schedule::Manual {
                Some(settings.schedule)
            } else {
                settings.deferred_schedule
            })
        }),
{
}

/// **Law.** Losing the setup and completing it again gives a schedule back
/// exactly as it was, however many passes run while the setup is missing.
pub proof fn completing_the_setup_gives_the_schedule_back(settings: Settings)
    requires
        settings.schedule != Schedule::Manual,
        settings.deferred_schedule is None,
    ensures
        deferred_settings(true, deferred_settings(false, settings)) == settings,
        deferred_settings(
            true,
            deferred_settings(false, deferred_settings(false, settings)),
        ) == settings,
{
}

/// **Law.** A snapshot that was in step with the store is in step with it after
/// a deferral pass.
pub proof fn deferral_keeps_the_snapshot_in_step(ready: bool, store: StoreView)
    ensures
        loaded(deferred_store(ready, loaded(Some(store)), Some(store))) == deferred_settings(
            ready,
            loaded(Some(store)),
        ),
{
    let settings = loaded(Some(store));
    match deferred(ready, settings.schedule, settings.deferred_schedule) {
        Some(next) => {
            let first = ConfigWrite::Schedule(next.schedule);
            let second = ConfigWrite::DeferredSchedule(or_else(next.deferred, Schedule::Manual));
            a_stored_value_reads_back(store, first);
            a_stored_value_reads_back(store.after(first), second);
        },
        None => {},
    }
}

} // verus!
