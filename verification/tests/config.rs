use cosmic_nightlight::brightness::Brightness;
use cosmic_nightlight::clock::MINUTES_PER_DAY;
use cosmic_nightlight::config::{
    applet_on_panel, expire_override, expire_override_at, is_military_time, kelvin_of,
    panel_config_name, read_time_of_day, resync, status_text, store_brightness,
    store_deferred_schedule, store_override, store_schedule, store_sunrise_minutes,
    store_sunset_minutes, store_temperature, warmth_of, ConfigWrite, Override, Panel, Schedule,
    Settings, Store, APP_ID, MAX_KELVIN, MAX_WARMTH, MIN_KELVIN,
};
use cosmic_nightlight::solar::SunTimes;

/// `Custom` rather than `Solar` throughout, so the window under test is the one
/// written here.
fn scheduled(sunset_minutes: u32, sunrise_minutes: u32) -> Settings {
    Settings {
        schedule: Schedule::Custom,
        sunset_minutes,
        sunrise_minutes,
        ..Settings::default()
    }
}

/// A store that holds nothing yet.
fn scratch_store() -> Option<Store> {
    Some(Store {
        tint_override: None,
        temperature: None,
        brightness: None,
        schedule: None,
        deferred_schedule: None,
        sunrise_minutes: None,
        sunset_minutes: None,
        sunrise_hour: None,
        sunset_hour: None,
        pending: Vec::new(),
    })
}

/// The writes a store has queued up.
fn writes(handler: &Option<Store>) -> Vec<ConfigWrite> {
    match handler {
        Some(store) => store.pending.clone(),
        None => Vec::new(),
    }
}

#[test]
fn the_legacy_schedule_key_still_means_custom() {
    assert_eq!(Schedule::from_key("sunset"), Schedule::Custom);
    assert_eq!(Schedule::from_key("custom"), Schedule::Custom);
    assert_eq!(Schedule::from_key("solar"), Schedule::Solar);
    assert_eq!(Schedule::from_key("manual"), Schedule::Manual);
    assert_eq!(Schedule::from_key("nonsense"), Schedule::Manual);
}

#[test]
fn schedules_round_trip_through_their_keys() {
    for schedule in Schedule::ALL {
        assert_eq!(Schedule::from_key(schedule.as_key()), schedule);
        assert_eq!(Schedule::ALL[schedule.index()], schedule);
    }
}

#[test]
fn overrides_round_trip_through_their_keys() {
    for value in [Override::Auto, Override::On, Override::Off] {
        assert_eq!(Override::from_key(value.as_key()), value);
    }
    assert_eq!(Override::from_key("nonsense"), Override::Auto);
}

#[test]
fn only_manual_has_no_window() {
    let base = scheduled(21 * 60, 5 * 60);
    assert_eq!(
        Settings {
            schedule: Schedule::Manual,
            ..base
        }
        .window(None),
        None
    );
    assert_eq!(base.window(None), Some((21 * 60, 5 * 60)), "custom");
    assert!(
        Settings {
            schedule: Schedule::Solar,
            ..base
        }
        .window(None)
        .is_some(),
        "solar falls back to the typed window when it has no sun"
    );
}

#[test]
fn the_solar_window_is_the_suns() {
    let sun = SunTimes {
        sunrise_minutes: 400,
        sunset_minutes: 1000,
    };
    let solar = Settings {
        schedule: Schedule::Solar,
        ..scheduled(21 * 60, 5 * 60)
    };
    assert_eq!(solar.window(Some(sun)), Some((1000, 400)));
    assert_eq!(solar.window(None), Some((21 * 60, 5 * 60)));
    assert_eq!(
        scheduled(21 * 60, 5 * 60).window(Some(sun)),
        Some((21 * 60, 5 * 60))
    );
}

#[test]
fn night_window_wraps_past_midnight() {
    // 21:30 -> 05:15.
    let settings = scheduled(21 * 60 + 30, 5 * 60 + 15);
    assert!(!settings.schedule_wants_tint_at(21 * 60 + 29, None), "21:29");
    assert!(settings.schedule_wants_tint_at(21 * 60 + 30, None), "21:30");
    assert!(settings.schedule_wants_tint_at(0, None), "midnight");
    assert!(settings.schedule_wants_tint_at(5 * 60 + 14, None), "05:14");
    assert!(!settings.schedule_wants_tint_at(5 * 60 + 15, None), "05:15");
    assert!(!settings.schedule_wants_tint_at(12 * 60, None), "noon");
}

#[test]
fn night_window_within_a_single_day_does_not_wrap() {
    // 09:00 -> 17:00 ends later in the day than it starts, so it is a plain
    // range and must not spill over into the evening or early morning.
    let settings = scheduled(9 * 60, 17 * 60);
    assert!(settings.schedule_wants_tint_at(9 * 60, None), "09:00");
    assert!(settings.schedule_wants_tint_at(12 * 60, None), "noon");
    assert!(settings.schedule_wants_tint_at(16 * 60 + 59, None), "16:59");
    assert!(!settings.schedule_wants_tint_at(17 * 60, None), "17:00");
    assert!(!settings.schedule_wants_tint_at(8 * 60 + 59, None), "08:59");
    assert!(!settings.schedule_wants_tint_at(22 * 60, None), "22:00");
    assert!(!settings.schedule_wants_tint_at(0, None), "midnight");
}

#[test]
fn equal_endpoints_cover_the_whole_day() {
    let settings = scheduled(21 * 60, 21 * 60);
    assert!(settings.schedule_wants_tint_at(0, None));
    assert!(settings.schedule_wants_tint_at(12 * 60, None));
    assert!(settings.schedule_wants_tint_at(21 * 60, None));
    assert!(settings.schedule_wants_tint(None));
    assert!(settings.tint_on(None));
}

#[test]
fn manual_schedule_ignores_the_clock() {
    let settings = Settings {
        schedule: Schedule::Manual,
        ..scheduled(21 * 60, 5 * 60)
    };
    assert!(!settings.schedule_wants_tint_at(23 * 60, None));
    assert!(!settings.schedule_wants_tint_at(12 * 60, None));
    assert!(!settings.schedule_wants_tint(None));
}

#[test]
fn a_drifted_snapshot_is_put_right() {
    let mut handler = scratch_store();

    store_schedule(&mut handler, Schedule::Custom);
    store_override(&mut handler, Override::Auto);
    store_temperature(&mut handler, 3800);

    // What a GUI is left holding when the notification for those never
    // arrives: an override forcing the tint on, over a schedule that by
    // itself would leave it off.
    let mut stale = Settings {
        schedule: Schedule::Manual,
        tint_override: Override::On,
        temperature: 5300,
        ..Settings::default()
    };
    assert!(stale.tint_on(None), "the stale snapshot forces the tint on");

    resync(&handler, &mut stale);

    assert_eq!(stale.schedule, Schedule::Custom);
    assert_eq!(stale.tint_override, Override::Auto);
    assert_eq!(stale.temperature, 3800);
    assert_eq!(
        stale,
        Settings::load_from(&handler),
        "a resync must leave nothing of the stale snapshot behind"
    );
}

#[test]
fn a_resync_writes_nothing() {
    let mut handler = scratch_store();
    store_temperature(&mut handler, 3800);
    store_schedule(&mut handler, Schedule::Custom);
    let before = writes(&handler);

    let mut settings = Settings::default();
    resync(&handler, &mut settings);
    resync(&handler, &mut settings);

    assert_eq!(writes(&handler), before, "resync must only read");
}

#[test]
fn override_wins_over_the_schedule() {
    let night = 23 * 60;
    let day = 12 * 60;
    let base = scheduled(21 * 60, 5 * 60);

    let forced_off = Settings {
        tint_override: Override::Off,
        ..base
    };
    assert!(!forced_off.tint_on_at(night, None));

    let forced_on = Settings {
        tint_override: Override::On,
        ..base
    };
    assert!(forced_on.tint_on_at(day, None));

    assert!(base.tint_on_at(night, None));
    assert!(!base.tint_on_at(day, None));
}

#[test]
fn overrides_expire_once_the_schedule_agrees() {
    let night = 23 * 60;
    let day = 12 * 60;
    let base = scheduled(21 * 60, 5 * 60);

    let forced_off = Settings {
        tint_override: Override::Off,
        ..base
    };
    assert!(!forced_off.override_caught_up_at(night, None), "still dark");
    assert!(forced_off.override_caught_up_at(day, None), "sunrise reached");

    let forced_on = Settings {
        tint_override: Override::On,
        ..base
    };
    assert!(!forced_on.override_caught_up_at(day, None), "still light");
    assert!(forced_on.override_caught_up_at(night, None), "sunset reached");
}

#[test]
fn auto_never_counts_as_caught_up() {
    let base = scheduled(21 * 60, 5 * 60);
    assert!(!base.override_caught_up_at(23 * 60, None));
    assert!(!base.override_caught_up_at(12 * 60, None));
}

#[test]
fn an_expired_override_is_cleared_and_stored_once() {
    let mut handler = scratch_store();
    store_override(&mut handler, Override::Off);
    let mut settings = Settings {
        tint_override: Override::Off,
        ..scheduled(21 * 60, 5 * 60)
    };

    expire_override_at(&mut handler, &mut settings, 23 * 60, None);
    assert_eq!(settings.tint_override, Override::Off, "still dark");
    assert_eq!(writes(&handler).len(), 1);

    expire_override_at(&mut handler, &mut settings, 12 * 60, None);
    assert_eq!(settings.tint_override, Override::Auto);
    assert_eq!(
        writes(&handler),
        vec![
            ConfigWrite::Override(Override::Off),
            ConfigWrite::Override(Override::Auto),
        ]
    );
    assert!(!settings.tint_on_at(12 * 60, None));

    expire_override_at(&mut handler, &mut settings, 12 * 60, None);
    assert_eq!(writes(&handler).len(), 2);

    // Night around the clock, so a force-on has been caught up with whenever
    // this runs.
    let mut all_night = Settings {
        tint_override: Override::On,
        ..scheduled(0, 0)
    };
    expire_override(&mut handler, &mut all_night, None);
    assert_eq!(all_night.tint_override, Override::Auto);
}

#[test]
fn an_unchanged_value_is_never_rewritten() {
    let mut handler = scratch_store();

    store_temperature(&mut handler, 3400);
    let first = writes(&handler).len();
    assert_eq!(first, 1, "the first write should create the key");

    store_temperature(&mut handler, 3400);
    assert_eq!(
        writes(&handler).len(),
        first,
        "an unchanged value must not be rewritten"
    );

    store_temperature(&mut handler, 3500);
    assert_ne!(
        writes(&handler).len(),
        first,
        "a changed value must still be written"
    );
    assert_eq!(Settings::load_from(&handler).temperature, 3500);
}

#[test]
fn an_unchanged_schedule_pair_is_never_rewritten() {
    let mut handler = scratch_store();

    store_schedule(&mut handler, Schedule::Solar);
    store_deferred_schedule(&mut handler, None);
    let before = writes(&handler);

    store_schedule(&mut handler, Schedule::Solar);
    store_deferred_schedule(&mut handler, None);
    assert_eq!(
        writes(&handler),
        before,
        "re-deciding the same schedule must not write"
    );

    // `None` is stored as `Manual`'s key, so parking `Manual` is the one case
    // where a changed `Option` leaves the stored bytes alone. Still no write.
    store_deferred_schedule(&mut handler, Some(Schedule::Manual));
    assert_eq!(
        writes(&handler),
        before,
        "`None` and `Some(Manual)` share a representation, so neither rewrites"
    );

    store_schedule(&mut handler, Schedule::Manual);
    assert_ne!(writes(&handler), before, "a real change must write");
}

#[test]
fn every_value_reads_back() {
    let mut handler = scratch_store();
    let half = Brightness {
        bits: 0.5f64.to_bits(),
    };
    store_override(&mut handler, Override::On);
    store_temperature(&mut handler, 3000);
    store_brightness(&mut handler, half);
    store_schedule(&mut handler, Schedule::Solar);
    store_deferred_schedule(&mut handler, Some(Schedule::Custom));
    store_sunrise_minutes(&mut handler, 5000);
    store_sunset_minutes(&mut handler, 1300);
    assert_eq!(
        Settings::load_from(&handler),
        Settings {
            tint_override: Override::On,
            temperature: 3000,
            brightness: half,
            schedule: Schedule::Solar,
            deferred_schedule: Some(Schedule::Custom),
            sunrise_minutes: MINUTES_PER_DAY - 1,
            sunset_minutes: 1300,
        }
    );
    let keys: Vec<&str> = writes(&handler).iter().map(|write| write.key()).collect();
    assert_eq!(
        keys,
        [
            "override",
            "temperature",
            "brightness",
            "schedule",
            "deferred_schedule",
            "sunrise_minutes",
            "sunset_minutes"
        ]
    );

    store_deferred_schedule(&mut handler, None);
    assert_eq!(Settings::load_from(&handler).deferred_schedule, None);
}

#[test]
fn brightness_is_compared_as_a_number() {
    let mut handler = scratch_store();
    store_brightness(&mut handler, Brightness { bits: 0.0f64.to_bits() });
    store_brightness(&mut handler, Brightness { bits: (-0.0f64).to_bits() });
    assert_eq!(writes(&handler).len(), 1, "the two zeros are one number");
    store_brightness(&mut handler, Brightness { bits: f64::NAN.to_bits() });
    store_brightness(&mut handler, Brightness { bits: f64::NAN.to_bits() });
    assert_eq!(writes(&handler).len(), 3, "not a number equals nothing");
    assert_eq!(Brightness::full().bits, 1.0f64.to_bits());
}

#[test]
fn a_store_out_of_reach_reads_as_the_defaults() {
    let mut none: Option<Store> = None;
    store_temperature(&mut none, 3000);
    assert!(none.is_none());
    assert_eq!(Settings::load_from(&none), Settings::default());
    assert_eq!(Settings::load_from(&scratch_store()), Settings::default());
    let defaults = Settings::default();
    assert_eq!(defaults.temperature, 4500);
    assert_eq!(defaults.sunrise_minutes, 6 * 60);
    assert_eq!(defaults.sunset_minutes, 18 * 60);
}

#[test]
fn whole_hours_are_read_only_without_minutes() {
    assert_eq!(read_time_of_day(None, None), None);
    assert_eq!(read_time_of_day(None, Some(7)), Some(7 * 60));
    assert_eq!(read_time_of_day(None, Some(99)), Some(23 * 60));
    assert_eq!(read_time_of_day(Some(15), Some(7)), Some(15));
    assert_eq!(read_time_of_day(Some(1440), None), Some(1439));
}

#[test]
fn warmth_and_kelvin_are_inverses() {
    let mut kelvin = MIN_KELVIN;
    while kelvin <= MAX_KELVIN {
        let round_tripped = kelvin_of(warmth_of(kelvin));
        assert!(
            round_tripped == kelvin,
            "{kelvin}K came back as {round_tripped}K"
        );
        kelvin += 50;
    }
}

#[test]
fn more_warmth_means_a_lower_temperature() {
    assert!(kelvin_of(0) > kelvin_of(MAX_WARMTH));
    assert_eq!(kelvin_of(0), MAX_KELVIN, "the left end is barely tinted");
    assert_eq!(kelvin_of(MAX_WARMTH), MIN_KELVIN, "the right end is amber");
}

#[test]
fn out_of_range_temperatures_are_clamped_onto_the_track() {
    assert_eq!(warmth_of(9000), 0);
    assert_eq!(warmth_of(1000), MAX_WARMTH);
    assert_eq!(kelvin_of(9000), MIN_KELVIN);
}

#[test]
fn the_applet_is_looked_for_on_every_panel() {
    let with = |center: Option<Vec<String>>, wings: Option<(Vec<String>, Vec<String>)>| {
        Some(Panel { center, wings })
    };
    let ours = || vec!["other".to_owned(), APP_ID.to_owned()];
    let others = || vec!["other".to_owned()];

    assert_eq!(applet_on_panel(&None), None);
    assert_eq!(applet_on_panel(&Some(Vec::new())), Some(false));
    assert_eq!(
        applet_on_panel(&Some(vec![None, with(None, None), with(Some(others()), None)])),
        Some(false)
    );
    assert_eq!(
        applet_on_panel(&Some(vec![with(Some(ours()), None)])),
        Some(true)
    );
    assert_eq!(
        applet_on_panel(&Some(vec![None, with(None, Some((ours(), others())))])),
        Some(true)
    );
    assert_eq!(
        applet_on_panel(&Some(vec![with(None, Some((others(), ours())))])),
        Some(true)
    );
    assert_eq!(
        panel_config_name("Dock"),
        "com.system76.CosmicPanel.Dock"
    );
}

#[test]
fn the_status_line_counts_down_to_the_next_change() {
    let manual = Settings::default();
    assert_eq!(status_text(&manual, true, None, false), "On");
    assert_eq!(status_text(&manual, false, None, false), "Off");
    let custom = scheduled(21 * 60 + 45, 5 * 60);
    assert_eq!(status_text(&custom, true, None, false), "On Until 5:00AM");
    assert_eq!(status_text(&custom, false, None, true), "Off Until 21:45");
    assert!(!is_military_time(None));
    assert!(is_military_time(Some(true)));
}
