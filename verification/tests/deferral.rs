use cosmic_nightlight::config::{ConfigWrite, Schedule, Settings, Store};
use cosmic_nightlight::deferral::{deferral, defer_schedule_without_setup, ScheduleDeferral};
use cosmic_nightlight::host::HostSetup;

#[test]
fn a_schedule_without_a_setup_is_parked_not_dropped() {
    assert_eq!(
        deferral(false, Schedule::Solar, None),
        Some(ScheduleDeferral {
            schedule: Schedule::Manual,
            deferred: Some(Schedule::Solar),
        })
    );
}

#[test]
fn completing_the_setup_restores_the_parked_schedule() {
    assert_eq!(
        deferral(true, Schedule::Manual, Some(Schedule::Solar)),
        Some(ScheduleDeferral {
            schedule: Schedule::Solar,
            deferred: None,
        })
    );
}

#[test]
fn a_settled_schedule_writes_nothing() {
    assert_eq!(deferral(false, Schedule::Manual, None), None);
    assert_eq!(deferral(true, Schedule::Solar, None), None);
    assert_eq!(deferral(true, Schedule::Manual, None), None);
}

#[test]
fn a_parked_schedule_survives_ticks_without_a_setup() {
    assert_eq!(
        deferral(false, Schedule::Manual, Some(Schedule::Solar)),
        None
    );
}

#[test]
fn a_newer_schedule_replaces_the_parked_one() {
    assert_eq!(
        deferral(false, Schedule::Custom, Some(Schedule::Solar)),
        Some(ScheduleDeferral {
            schedule: Schedule::Manual,
            deferred: Some(Schedule::Custom),
        })
    );
}

#[test]
fn losing_and_completing_the_setup_gives_the_schedule_back() {
    let mut handler = Some(Store {
        tint_override: None,
        temperature: None,
        brightness: None,
        schedule: Some("custom".to_owned()),
        deferred_schedule: None,
        sunrise_minutes: None,
        sunset_minutes: None,
        sunrise_hour: None,
        sunset_hour: None,
        pending: Vec::new(),
    });
    let before = Settings::load_from(&handler);
    let mut settings = before;

    defer_schedule_without_setup(&mut handler, &mut settings, HostSetup::Needed);
    assert_eq!(settings.schedule, Schedule::Manual);
    assert_eq!(settings.deferred_schedule, Some(Schedule::Custom));
    assert_eq!(Settings::load_from(&handler), settings);

    // Ticks that change nothing write nothing.
    defer_schedule_without_setup(&mut handler, &mut settings, HostSetup::Outdated);
    assert_eq!(
        handler.as_ref().map(|store| store.pending.clone()),
        Some(vec![
            ConfigWrite::Schedule(Schedule::Manual),
            ConfigWrite::DeferredSchedule(Schedule::Custom),
        ])
    );

    defer_schedule_without_setup(&mut handler, &mut settings, HostSetup::Ready);
    assert_eq!(settings, before);
    assert_eq!(Settings::load_from(&handler), before);
}
