use cosmic_nightlight::applet::{
    AppletEffect, ButtonPress, Message as AppletMessage, NightLightApplet,
};
use cosmic_nightlight::brightness::Brightness;
use cosmic_nightlight::config::{ConfigWrite, Override, Schedule, Settings, Store, MAX_WARMTH};
use cosmic_nightlight::host::HostSetup;
use cosmic_nightlight::screen::{temperature_label, ScreenChange};
use cosmic_nightlight::settings_window::{
    edit_time, time_picker, Bound, Message as WindowMessage, SettingsWindow, TimePart, TimePicker,
    WindowEffect,
};
use cosmic_nightlight::solar::SunTimes;
use cosmic_nightlight::tick::Moment;
use cosmic_nightlight::window_view::{brightness_label, SCHEDULE_OPTIONS};

const NIGHT: Moment = Moment {
    minute_of_day: 23 * 60,
    sun: None,
};
const DAY: Moment = Moment {
    minute_of_day: 12 * 60,
    sun: None,
};

fn store(schedule: &str) -> Option<Store> {
    Some(Store {
        tint_override: None,
        temperature: Some(3500),
        brightness: None,
        schedule: Some(schedule.to_owned()),
        deferred_schedule: None,
        sunrise_minutes: Some(5 * 60),
        sunset_minutes: Some(21 * 60),
        sunrise_hour: None,
        sunset_hour: None,
        pending: Vec::new(),
    })
}

fn writes(handler: &Option<Store>) -> Vec<ConfigWrite> {
    match handler {
        Some(store) => store.pending.clone(),
        None => Vec::new(),
    }
}

fn window(handler: &Option<Store>, setup: HostSetup) -> SettingsWindow {
    let (window, effects) = SettingsWindow::init(handler, false, setup, Some(true), false);
    assert_eq!(effects, vec![]);
    window
}

fn tick(setup: HostSetup) -> WindowMessage {
    WindowMessage::Tick {
        setup,
        applet_present: Some(true),
        autostart: false,
    }
}

// ----- the applet ----------------------------------------------------------

#[test]
fn the_applet_toggles_and_puts_a_failed_toggle_back() {
    let mut handler = store("custom");
    let mut applet = NightLightApplet::init(&handler);
    assert_eq!(
        applet.update(&mut handler, AppletMessage::Toggle(true), DAY),
        AppletEffect::Screen(ScreenChange::Toggle {
            state: Some(3500),
            brightness: Brightness::full(),
            previous: Override::Auto,
        })
    );
    assert_eq!(applet.settings.tint_override, Override::On);
    assert_eq!(Settings::load_from(&handler).tint_override, Override::On);
    assert_eq!(applet.view(DAY).icon, "weather-clear-night-symbolic");

    let landed = AppletMessage::ToggleFinished {
        previous: Override::Auto,
        applied: true,
    };
    applet.update(&mut handler, landed, DAY);
    assert_eq!(applet.settings.tint_override, Override::On);

    let failed = AppletMessage::ToggleFinished {
        previous: Override::Auto,
        applied: false,
    };
    assert_eq!(
        applet.update(&mut handler, failed, DAY),
        AppletEffect::Nothing
    );
    assert_eq!(applet.settings.tint_override, Override::Auto);
    assert_eq!(Settings::load_from(&handler).tint_override, Override::Auto);
    assert_eq!(applet.view(DAY).icon, "weather-clear-symbolic");
}

#[test]
fn a_drag_on_the_applet_survives_what_comes_in() {
    let mut handler = store("custom");
    let mut applet = NightLightApplet::init(&handler);
    applet.update(&mut handler, AppletMessage::TemperatureChanged(4200), NIGHT);
    applet.update(
        &mut handler,
        AppletMessage::ConfigUpdated(Settings::default()),
        NIGHT,
    );
    applet.update(&mut handler, AppletMessage::Tick(HostSetup::Ready), NIGHT);
    assert_eq!(applet.temperature, 4200);
    assert_eq!(writes(&handler), vec![]);

    assert_eq!(
        applet.update(&mut handler, AppletMessage::TemperatureCommitted, NIGHT),
        AppletEffect::Screen(ScreenChange::Force {
            state: Some(4200),
            brightness: Brightness::full(),
        })
    );
    assert_eq!(writes(&handler), vec![ConfigWrite::Temperature(4200)]);
    // By day there is no tint to push it to.
    applet.update(&mut handler, AppletMessage::TemperatureChanged(4300), DAY);
    assert_eq!(
        applet.update(&mut handler, AppletMessage::TemperatureCommitted, DAY),
        AppletEffect::Nothing
    );
    // With no drag the slider follows.
    applet.update(
        &mut handler,
        AppletMessage::ConfigUpdated(Settings::default()),
        DAY,
    );
    assert_eq!(applet.temperature, 4500);
}

#[test]
fn a_tick_puts_a_stale_applet_right() {
    let mut handler = store("custom");
    let mut applet = NightLightApplet {
        settings: Settings {
            tint_override: Override::Off,
            ..Settings::default()
        },
        ..NightLightApplet::init(&handler)
    };
    assert_eq!(
        applet.update(&mut handler, AppletMessage::Tick(HostSetup::Ready), NIGHT),
        AppletEffect::Screen(ScreenChange::Reconcile {
            state: Some(3500),
            brightness: Brightness::full(),
        })
    );
    assert_eq!(applet.settings, Settings::load_from(&handler));
    assert_eq!(writes(&handler), vec![]);
}

#[test]
fn the_popup_opens_and_closes() {
    let mut handler = store("custom");
    let mut applet = NightLightApplet::init(&handler);
    assert_eq!(applet.view(DAY).press, ButtonPress::OpenPopup);
    applet.update(&mut handler, AppletMessage::PopupOpened, DAY);
    assert_eq!(applet.view(DAY).press, ButtonPress::ClosePopup);
    assert_eq!(
        applet.update(&mut handler, AppletMessage::OpenSettings, DAY),
        AppletEffect::OpenSettings { close_popup: true }
    );
    assert_eq!(
        applet.update(&mut handler, AppletMessage::OpenSettings, DAY),
        AppletEffect::OpenSettings { close_popup: false }
    );
    applet.update(&mut handler, AppletMessage::PopupOpened, DAY);
    applet.update(&mut handler, AppletMessage::PopupClosed, DAY);
    assert!(!applet.popup);
}

#[test]
fn the_popup_says_what_is_going_on() {
    let applet = NightLightApplet::init(&store("custom"));
    let content = applet.popup_content(NIGHT, false);
    assert!(content.tint_on);
    assert_eq!(content.title, "Night Light");
    assert_eq!(content.status, "On Until 5:00AM");
    assert_eq!(content.temperature, "Temperature: 3500K");
    assert_eq!(content.warmth, 3000);
    assert_eq!(content.ends, ("Less warm", "More warm"));
    assert_eq!(content.settings_button, "Night Light Settings...");
    assert_eq!(applet.popup_content(DAY, true).status, "Off Until 21:00");
    assert_eq!(temperature_label(u32::MAX), "Temperature: 2147483647K");
}

// ----- the settings window -------------------------------------------------

#[test]
fn a_schedule_picked_without_a_setup_waits_for_it() {
    let mut handler = store("manual");
    let mut window = window(&handler, HostSetup::Needed);
    assert_eq!(
        window.update(&mut handler, WindowMessage::ScheduleSelected(1), DAY),
        vec![WindowEffect::RunHostSetup]
    );
    assert_eq!(window.settings.schedule, Schedule::Solar);
    assert!(window.setup_busy);
    assert_eq!(writes(&handler), vec![]);

    // A tick meanwhile doesn't blank the dropdown.
    window.update(&mut handler, tick(HostSetup::Needed), DAY);
    assert_eq!(window.settings.schedule, Schedule::Solar);

    // It fails: the dropdown goes back, and nothing was stored.
    let failed = WindowMessage::HostSetupFinished {
        error: Some("the password prompt was dismissed".to_owned()),
        setup: HostSetup::Needed,
    };
    assert_eq!(window.update(&mut handler, failed, DAY), vec![]);
    assert_eq!(window.settings.schedule, Schedule::Manual);
    assert!(!window.setup_busy);
    assert_eq!(writes(&handler), vec![]);
    assert_eq!(
        window.host_setup_row().map(|row| row.description).as_deref(),
        Some(
            "Turning on the night light needs a one-time system permission.\n\n\
             That didn't work: the password prompt was dismissed."
        )
    );

    // It lands: the schedule is stored.
    window.update(&mut handler, WindowMessage::ScheduleSelected(2), DAY);
    assert_eq!(window.setup_error, None);
    let landed = WindowMessage::HostSetupFinished {
        error: None,
        setup: HostSetup::Ready,
    };
    window.update(&mut handler, landed, DAY);
    assert_eq!(window.settings.schedule, Schedule::Custom);
    assert_eq!(writes(&handler), vec![ConfigWrite::Schedule(Schedule::Custom)]);
    assert!(window.host_setup_row().is_none());
}

#[test]
fn a_schedule_picked_with_a_setup_is_stored_at_once() {
    let mut handler = store("manual");
    let mut window = window(&handler, HostSetup::Ready);
    assert_eq!(
        window.update(&mut handler, WindowMessage::ScheduleSelected(2), DAY),
        vec![]
    );
    assert_eq!(writes(&handler), vec![ConfigWrite::Schedule(Schedule::Custom)]);
    // Turning it off needs no setup.
    window.setup = HostSetup::Needed;
    assert_eq!(
        window.update(&mut handler, WindowMessage::ScheduleSelected(0), DAY),
        vec![]
    );
    assert_eq!(Settings::load_from(&handler).schedule, Schedule::Manual);
}

#[test]
fn times_are_edited_part_by_part() {
    let nine_pm = 21 * 60;
    assert_eq!(edit_time(nine_pm, TimePart::Hour(10), false), 22 * 60);
    assert_eq!(edit_time(nine_pm, TimePart::Hour(10), true), 10 * 60);
    assert_eq!(edit_time(nine_pm, TimePart::Hour(0), false), 12 * 60);
    assert_eq!(edit_time(nine_pm, TimePart::Minute(45), false), 21 * 60 + 45);
    assert_eq!(edit_time(nine_pm, TimePart::Meridiem(0), false), 9 * 60);
    assert_eq!(edit_time(9 * 60, TimePart::Meridiem(1), false), nine_pm);
    assert_eq!(edit_time(nine_pm, TimePart::Hour(99), true), 23 * 60);

    let mut handler = store("custom");
    let mut window = window(&handler, HostSetup::Ready);
    let edit = WindowMessage::TimeSelected(Bound::Sunset, TimePart::Minute(30));
    assert_eq!(window.update(&mut handler, edit, DAY), vec![]);
    let edit = WindowMessage::TimeSelected(Bound::Sunrise, TimePart::Hour(6));
    window.update(&mut handler, edit, DAY);
    assert_eq!(
        writes(&handler),
        vec![
            ConfigWrite::SunsetMinutes(21 * 60 + 30),
            ConfigWrite::SunriseMinutes(6 * 60),
        ]
    );
    assert_eq!(window.settings.sunset_minutes, 21 * 60 + 30);
}

#[test]
fn pickers_show_the_time_they_edit() {
    assert_eq!(
        time_picker(Bound::Sunset, 21 * 60 + 5, false),
        TimePicker {
            bound: Bound::Sunset,
            hour: 9,
            minute: 5,
            meridiem: Some(1),
        }
    );
    assert_eq!(
        time_picker(Bound::Sunrise, 21 * 60 + 5, true),
        TimePicker {
            bound: Bound::Sunrise,
            hour: 21,
            minute: 5,
            meridiem: None,
        }
    );
    assert_eq!(time_picker(Bound::Sunrise, 0, false).meridiem, Some(0));
}

#[test]
fn the_window_toggles_and_puts_a_failed_toggle_back() {
    let mut handler = store("custom");
    let mut window = window(&handler, HostSetup::Needed);
    assert_eq!(
        window.update(&mut handler, WindowMessage::Toggle(false), NIGHT),
        vec![WindowEffect::Screen(ScreenChange::Toggle {
            state: None,
            brightness: Brightness::full(),
            previous: Override::Auto,
        })]
    );
    assert_eq!(window.settings.tint_override, Override::Off);
    let failed = WindowMessage::ToggleFinished {
        previous: Override::Auto,
        applied: false,
        setup: HostSetup::Ready,
    };
    window.update(&mut handler, failed, NIGHT);
    assert_eq!(window.settings.tint_override, Override::Auto);
    assert_eq!(window.setup, HostSetup::Ready);
    assert_eq!(Settings::load_from(&handler).tint_override, Override::Auto);
}

#[test]
fn each_slider_keeps_to_itself() {
    let half = Brightness {
        bits: 0.5f64.to_bits(),
    };
    let mut handler = store("custom");
    let mut window = window(&handler, HostSetup::Ready);
    window.update(&mut handler, WindowMessage::BrightnessChanged(half), NIGHT);
    let incoming = Settings {
        temperature: 3000,
        ..Settings::default()
    };
    assert_eq!(
        window.update(&mut handler, WindowMessage::ConfigUpdated(incoming), NIGHT),
        vec![WindowEffect::Screen(ScreenChange::Reconcile {
            state: None,
            brightness: Brightness::full(),
        })]
    );
    assert_eq!(window.temperature, 3000);
    assert_eq!(window.brightness, half);
    assert_eq!(writes(&handler), vec![]);

    window.settings.tint_override = Override::On;
    assert_eq!(
        window.update(
            &mut handler,
            WindowMessage::BrightnessCommitted(Brightness::full()),
            NIGHT
        ),
        vec![WindowEffect::Screen(ScreenChange::Force {
            state: Some(3000),
            brightness: half,
        })]
    );
    assert_eq!(writes(&handler), vec![ConfigWrite::Brightness(half)]);

    // Released without having been moved, it is stored where it rests.
    let near = Brightness {
        bits: f64::from(0.7f32).to_bits(),
    };
    window.update(&mut handler, WindowMessage::BrightnessCommitted(near), NIGHT);
    assert_eq!(window.brightness, near);
    assert_eq!(Settings::load_from(&handler).brightness, near);

    window.update(&mut handler, WindowMessage::TemperatureChanged(2600), NIGHT);
    assert!(window.temperature_dragging);
    window.update(&mut handler, WindowMessage::TemperatureCommitted, NIGHT);
    assert_eq!(Settings::load_from(&handler).temperature, 2600);
}

#[test]
fn the_window_and_the_applet_tick_alike() {
    for setup in [HostSetup::Ready, HostSetup::Needed] {
        for moment in [NIGHT, DAY] {
            let (mut ours, mut theirs) = (store("custom"), store("custom"));
            let mut window = window(&ours, HostSetup::Ready);
            window.settings.tint_override = Override::On;
            let mut applet = NightLightApplet::init(&theirs);
            let effects = window.update(&mut ours, tick(setup), moment);
            let effect = applet.update(&mut theirs, AppletMessage::Tick(setup), moment);
            assert_eq!(window.settings, applet.settings);
            assert_eq!(writes(&ours), writes(&theirs));
            match effect {
                AppletEffect::Screen(change) => {
                    assert_eq!(effects, vec![WindowEffect::Screen(change)]);
                }
                other => panic!("{other:?}"),
            }
        }
    }
}

#[test]
fn only_a_seen_applet_retires_the_background() {
    let mut handler = store("custom");
    let (_, effects) = SettingsWindow::init(&handler, false, HostSetup::Ready, Some(true), true);
    assert_eq!(effects, vec![WindowEffect::SetAutostart(false)]);
    let (mut window, effects) =
        SettingsWindow::init(&handler, false, HostSetup::Ready, None, true);
    assert_eq!(effects, vec![]);
    let found = |applet_present| WindowMessage::Tick {
        setup: HostSetup::Ready,
        applet_present,
        autostart: true,
    };
    assert_eq!(window.update(&mut handler, found(Some(false)), DAY).len(), 1);
    assert_eq!(
        window.update(&mut handler, found(Some(true)), DAY)[1],
        WindowEffect::SetAutostart(false)
    );
    let done = WindowMessage::AutostartSet {
        error: Some("denied".to_owned()),
        autostart: true,
    };
    window.update(&mut handler, done, DAY);
    let row = window.background_section().expect("it is still on");
    assert!(row.on);
    assert_eq!(
        row.description,
        "Not needed: the Night Light applet is on your panel and already keeps the schedule. \
         Turning this off stops the duplicate background process.\n\nThat didn't work: denied."
    );
}

#[test]
fn a_schedule_nobody_keeps_is_pointed_out() {
    let handler = store("custom");
    let open = |applet_present, autostart| {
        SettingsWindow::init(&handler, false, HostSetup::Ready, applet_present, autostart).0
    };
    let banner = open(Some(false), false).no_scheduler_banner().expect("a banner");
    assert_eq!(banner.title, "Your schedule isn't running");
    assert_eq!(banner.add_to_panel, "Add to Panel");
    assert!(!open(Some(false), true).no_scheduler());
    assert!(!open(None, false).no_scheduler(), "unknown counts as present");
    assert!(!open(Some(true), false).no_scheduler());
    assert!(open(Some(true), false).background_section().is_none());
    assert!(open(None, false).background_section().is_none());
    assert!(open(None, true).background_section().is_some());
    let row = open(Some(false), false).background_section().expect("a row");
    assert_eq!(
        row.description,
        "Keeps the schedule running when this window is closed, and starts again at each login."
    );
    let manual = store("manual");
    let (window, _) = SettingsWindow::init(&manual, false, HostSetup::Ready, Some(false), false);
    assert!(!window.no_scheduler(), "nothing to miss");
}

#[test]
fn buttons_start_what_they_say() {
    let mut handler = store("custom");
    let mut window = window(&handler, HostSetup::Outdated);
    let row = window.host_setup_row().expect("an offer");
    assert_eq!((row.title, row.button), ("Update the installed helper", "Update"));
    assert!(row.enabled);
    assert_eq!(
        window.update(&mut handler, WindowMessage::RunHostSetup, DAY),
        vec![WindowEffect::RunHostSetup]
    );
    let row = window.host_setup_row().expect("still an offer");
    assert_eq!((row.button, row.enabled), ("Working…", false));
    assert_eq!(
        window.update(&mut handler, WindowMessage::SetAutostart(true), DAY),
        vec![WindowEffect::SetAutostart(true)]
    );
    assert_eq!(
        window.update(&mut handler, WindowMessage::OpenAppletSettings, DAY),
        vec![WindowEffect::OpenAppletSettings]
    );
    let fresh = SettingsWindow::init(&handler, false, HostSetup::Needed, None, false).0;
    let row = fresh.host_setup_row().expect("an offer");
    assert_eq!((row.title, row.button), ("Set up Night Light", "Set Up"));
}

#[test]
fn the_summary_names_the_window_or_why_there_is_none() {
    let summary = |schedule: &str, sun, located| {
        window(&store(schedule), HostSetup::Ready).schedule_summary(sun, located)
    };
    let sun = Some(SunTimes {
        sunrise_minutes: 400,
        sunset_minutes: 1000,
    });
    assert_eq!(summary("manual", sun, true), None);
    assert_eq!(
        summary("custom", None, true).as_deref(),
        Some("Warm from 9:00PM to 5:00AM")
    );
    assert_eq!(
        summary("solar", sun, true).as_deref(),
        Some("Warm from 4:40PM to 6:40AM")
    );
    assert_eq!(
        summary("solar", None, true).as_deref(),
        Some("The sun doesn't set here today — using the times below")
    );
    assert_eq!(
        summary("solar", None, false).as_deref(),
        Some("No location for your time zone — using the times below")
    );
    let mut all_day = window(&store("custom"), HostSetup::Ready);
    all_day.settings.sunrise_minutes = all_day.settings.sunset_minutes;
    assert_eq!(
        all_day.schedule_summary(None, true).as_deref(),
        Some("Warm all day from 9:00PM")
    );
}

#[test]
fn the_window_shows_its_sections() {
    let window = window(&store("custom"), HostSetup::Ready);
    let content = window.view_content(NIGHT, true, 80);
    assert_eq!(content.title, "Night Light Settings");
    assert!(content.setup.is_none() && content.banner.is_none() && content.background.is_none());
    assert!(content.tint_on);
    assert_eq!(content.status, "On Until 5:00AM");
    assert_eq!(content.temperature, "Temperature: 3500K");
    assert_eq!(content.brightness, "Brightness: 80%");
    assert_eq!(SCHEDULE_OPTIONS[content.schedule], "Custom Schedule");
    assert_eq!(content.pickers.map(|(from, to)| (from.hour, to.hour)), Some((9, 5)));
    assert!(content.warmth < MAX_WARMTH);
    assert_eq!(brightness_label(-5), "Brightness: -5%");
    assert_eq!(brightness_label(0), "Brightness: 0%");

    let mut solar = SettingsWindow::init(
        &store("solar"),
        true,
        HostSetup::Needed,
        Some(false),
        false,
    )
    .0;
    solar.military = true;
    let sun = Some(SunTimes {
        sunrise_minutes: 400,
        sunset_minutes: 1000,
    });
    assert!(!solar.uses_typed_times(sun));
    assert!(solar.uses_typed_times(None));
    let content = solar.view_content(
        Moment {
            minute_of_day: 720,
            sun,
        },
        true,
        100,
    );
    assert!(content.setup.is_some() && content.banner.is_some() && content.background.is_some());
    assert_eq!(content.pickers, None);
    assert_eq!(content.status, "Off Until 16:40");
}

#[test]
fn a_picker_shows_what_was_picked_in_it() {
    for military in [false, true] {
        for current in [0, 299, 719, 720, 1259, 1439] {
            let before = time_picker(Bound::Sunset, current, military);
            for index in 0..12 {
                let edited = edit_time(current, TimePart::Hour(index), military);
                assert_eq!(
                    time_picker(Bound::Sunset, edited, military),
                    TimePicker {
                        hour: index,
                        ..before
                    }
                );
                let edited = edit_time(current, TimePart::Minute(index), military);
                assert_eq!(
                    time_picker(Bound::Sunset, edited, military),
                    TimePicker {
                        minute: index,
                        ..before
                    }
                );
            }
            if !military {
                for index in 0..2 {
                    let edited = edit_time(current, TimePart::Meridiem(index), military);
                    assert_eq!(
                        time_picker(Bound::Sunset, edited, military),
                        TimePicker {
                            meridiem: Some(index),
                            ..before
                        }
                    );
                }
            }
        }
    }
}
