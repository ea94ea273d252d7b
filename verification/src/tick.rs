//! What every run mode does on its tick, and the decisions the two windows
//! share: parking a schedule that has no setup, letting an override lapse, and
//! working out what the screen should show.

use crate::clock::{now_minute_of_day, MINUTES_PER_DAY};
use crate::config::{
    expire_override_at, expiry_keeps_the_snapshot_in_step, expiry_stored, handler_view, loaded,
    Override, Settings, Store, StoreView,
};
use crate::deferral::{
    defer_schedule_without_setup, deferral_keeps_the_snapshot_in_step, deferred_settings,
    deferred_store,
};
use crate::host::HostSetup;
use crate::record::TintState;
use crate::solar::SunTimes;
use vstd::prelude::*;

verus! {

/// How often every run mode re-checks the schedule against the clock, in
/// seconds. Whether the tint should be on is a function of the current time, so
/// nothing may keep it; this bounds how late a transition can be.
pub const TICK_SECS: u64 = 15;

/// The moment a decision is made at: the local time of day in minutes, and the
/// day's sun where it is known.
#[derive(Clone, Copy, Debug, PartialEq, Eq, Structural)]
pub struct Moment {
    pub minute_of_day: u32,
    pub sun: Option<SunTimes>,
}

impl Moment {
    /// The present moment, on a day with this sun.
    pub fn now(sun: Option<SunTimes>) -> (moment: Moment)
        ensures
            moment.minute_of_day < MINUTES_PER_DAY,
            call_ensures(now_minute_of_day, (), moment.minute_of_day),
            moment.sun == sun,
    {
        Moment { minute_of_day: now_minute_of_day(), sun }
    }
}

impl Settings {
    /// Whether the tint should be on at a moment.
    pub open spec fn on_at(self, moment: Moment) -> bool {
        self.wanted_at(moment.minute_of_day as int, moment.sun)
    }

    /// What the screen should show at a moment.
    pub open spec fn state_at(self, moment: Moment) -> TintState {
        if self.on_at(moment) {
            Some(self.temperature)
        } else {
            None
        }
    }

    /// What the screen should show at a moment.
    pub fn desired_at(&self, moment: Moment) -> (state: TintState)
        ensures
            state == self.state_at(moment),
    {
        if self.tint_on_at(moment.minute_of_day, moment.sun) {
            Some(self.temperature)
        } else {
            None
        }
    }
}

/// The settings after the tick's decisions.
pub open spec fn decided_settings(settings: Settings, ready: bool, moment: Moment) -> Settings {
    deferred_settings(ready, settings).expired_at(moment.minute_of_day as int, moment.sun)
}

/// The store after the tick's decisions.
pub open spec fn decided_store(
    handler: Option<StoreView>,
    settings: Settings,
    ready: bool,
    moment: Moment,
) -> Option<StoreView> {
    expiry_stored(
        deferred_store(ready, settings, handler),
        deferred_settings(ready, settings),
        moment.minute_of_day as int,
        moment.sun,
    )
}

/// Makes the tick's decisions, in the snapshot and in the store alike. The
/// deferral comes before the expiry, which reads the schedule to decide whether
/// the override has been caught up to.
///
/// This belongs on the tick and nowhere else: it stores what it decides, and a
/// write wakes every process watching the store, so deciding in response to a
/// change would answer a write with a write.
pub fn decide(
    handler: &mut Option<Store>,
    settings: &mut Settings,
    setup: HostSetup,
    moment: Moment,
)
    ensures
        *final(settings) == decided_settings(
            *old(settings),
            setup == HostSetup::Ready,
            moment,
        ),
        handler_view(*final(handler)) == decided_store(
            handler_view(*old(handler)),
            *old(settings),
            setup == HostSetup::Ready,
            moment,
        ),
{
    defer_schedule_without_setup(handler, settings, setup);
    expire_override_at(handler, settings, moment.minute_of_day, moment.sun);
}

/// **Law.** A snapshot that was in step with the store is in step with it after
/// the tick's decisions.
pub proof fn deciding_keeps_the_snapshot_in_step(store: StoreView, ready: bool, moment: Moment)
    ensures
        loaded(decided_store(Some(store), loaded(Some(store)), ready, moment))
            == decided_settings(loaded(Some(store)), ready, moment),
{
    deferral_keeps_the_snapshot_in_step(ready, store);
    let parked = deferred_store(ready, loaded(Some(store)), Some(store));
    expiry_keeps_the_snapshot_in_step(parked->0, moment.minute_of_day as int, moment.sun);
}

/// **Law.** The decisions settle: made again at the same moment, in this process
/// or in another that has read the store since, they change nothing, store
/// nothing, and ask for the same screen. So several processes can tick over one
/// store without waking each other for ever.
pub proof fn decisions_settle(store: StoreView, ready: bool, moment: Moment)
    ensures
        ({
            let settings = decided_settings(loaded(Some(store)), ready, moment);
            let stored = decided_store(Some(store), loaded(Some(store)), ready, moment);
            &&& loaded(stored) == settings
            &&& decided_settings(settings, ready, moment) == settings
            &&& decided_store(stored, settings, ready, moment) == stored
        }),
{
    deciding_keeps_the_snapshot_in_step(store, ready, moment);
}

/// **Law.** Without a setup nothing changes the screen by itself: after the
/// tick's decisions the tint is on only where a person turned it on.
pub proof fn without_a_setup_only_a_person_tints(settings: Settings, moment: Moment)
    ensures
        decided_settings(settings, false, moment).on_at(moment) ==> settings.tint_override
            == Override::On,
{
}

/// The override that means "make the tint `on`": none where the schedule agrees,
/// and otherwise one against it.
pub open spec fn override_for(settings: Settings, on: bool, moment: Moment) -> Override {
    if on == settings.scheduled_at(moment.minute_of_day as int, moment.sun) {
        Override::Auto
    } else if on {
        Override::On
    } else {
        Override::Off
    }
}

/// Interprets the toggle relative to what the schedule wants now: flipping it to
/// match the schedule just follows it, while flipping it against the schedule
/// sets an override that lasts until the schedule next agrees.
pub fn toggle_override(settings: &Settings, on: bool, moment: Moment) -> (value: Override)
    ensures
        value == override_for(*settings, on, moment),
{
    if on == settings.schedule_wants_tint_at(moment.minute_of_day, moment.sun) {
        Override::Auto
    } else if on {
        Override::On
    } else {
        Override::Off
    }
}

/// **Law.** The toggle means what it shows: once flipped, the tint is wanted
/// exactly if it was flipped on. That holds for as long as the schedule stays as
/// it is, and nothing lapses meanwhile; and when the schedule does turn, the
/// override lapses and the schedule is followed again.
pub proof fn the_toggle_means_what_it_shows(
    settings: Settings,
    on: bool,
    flipped: Moment,
    later: Moment,
)
    ensures
        ({
            let after = Settings { tint_override: override_for(settings, on, flipped), ..settings };
            let before = settings.scheduled_at(flipped.minute_of_day as int, flipped.sun);
            let wants = settings.scheduled_at(later.minute_of_day as int, later.sun);
            let lapsed = after.expired_at(later.minute_of_day as int, later.sun);
            &&& after.on_at(flipped) == on
            &&& wants == before ==> lapsed == after && after.on_at(later) == on
            &&& wants != before ==> lapsed.tint_override == Override::Auto && lapsed.on_at(later)
                == wants
        }),
{
}

} // verus!
