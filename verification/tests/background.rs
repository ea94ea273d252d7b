use cosmic_nightlight::autostart::{
    complaint, daemon_args, dir, entry, entry_path, exec_line, heal, is_enabled, is_obsolete, join,
    remove_autostart_entries, removed, set_enabled, AutostartChange, AutostartStep, EntryRead, Removal, APP_IDS, MARKER,
};
use cosmic_nightlight::config::{ConfigWrite, Override, Schedule, Settings, Store, APP_ID};
use cosmic_nightlight::daemon::{
    applied_message, daemon_start, foreground_vt, pass_start, run_pass, wait_for_session_foreground, PassStart,
    SessionWait, SESSION_READY_TIMEOUT_MS,
};
use cosmic_nightlight::host::HostSetup;
use cosmic_nightlight::tick::{decide, toggle_override, Moment};

fn text(words: &str) -> Option<String> {
    Some(words.to_owned())
}

#[test]
fn the_entry_reads_as_a_desktop_entry() {
    assert_eq!(
        entry(false),
        "[Desktop Entry]\n\
         Type=Application\n\
         Name=Night Light (background)\n\
         Comment=Keeps the night light schedule while the applet is off the panel\n\
         Exec=cosmic-nightlight --daemon --managed\n\
         Terminal=false\n\
         NoDisplay=true\n\
         X-GNOME-Autostart-enabled=true\n\
         X-CosmicNightlight-Autostart=true\n"
    );
    assert_eq!(
        exec_line(true),
        "flatpak run --command=cosmic-nightlight io.github.cosmic_nightlight --daemon --managed"
    );
}

#[test]
fn our_own_entry_is_kept_and_needs_no_healing() {
    for in_flatpak in [false, true] {
        let ours = Some(entry(in_flatpak));
        assert!(is_enabled(&ours));
        assert_eq!(heal(&ours, in_flatpak), None);
        assert!(!is_obsolete(&EntryRead::Text(entry(in_flatpak))));
        assert_eq!(heal(&ours, !in_flatpak), Some(entry(!in_flatpak)));
    }
}

#[test]
fn a_stale_entry_of_ours_is_rewritten() {
    let stale = text("[Desktop Entry]\nExec=cosmic-nightlight --daemon\nX-CosmicNightlight-Autostart=true\n");
    assert!(is_enabled(&stale));
    assert_eq!(heal(&stale, false), Some(entry(false)));
}

#[test]
fn an_entry_without_the_marker_is_obsolete() {
    let fossil = "[Desktop Entry]\nExec=cosmic-nightlight --daemon\n";
    assert!(!is_enabled(&text(fossil)));
    assert_eq!(heal(&text(fossil), false), None);
    assert!(is_obsolete(&EntryRead::Text(fossil.to_owned())));
    assert!(!is_obsolete(&EntryRead::NotFound));
    assert!(!is_obsolete(&EntryRead::Unreadable));
    assert!(!is_enabled(&None));
    assert!(is_enabled(&text(MARKER)));
    assert_eq!(APP_IDS[0], APP_ID);
}

#[test]
fn the_entry_lives_under_the_config_home() {
    assert_eq!(
        dir(&text("/home/me/cfg"), &text("/home/me")).as_deref(),
        Some("/home/me/cfg/autostart")
    );
    assert_eq!(
        dir(&text(""), &text("/home/me")).as_deref(),
        Some("/home/me/.config/autostart")
    );
    assert_eq!(
        dir(&None, &text("/home/me/")).as_deref(),
        Some("/home/me/.config/autostart")
    );
    assert_eq!(dir(&None, &None), None);
    assert_eq!(join("", "x"), "x");
    assert_eq!(
        entry_path("/a", APP_ID),
        "/a/io.github.cosmic_nightlight.desktop"
    );
}

#[test]
fn turning_it_on_installs_and_off_removes() {
    let path = "/a/io.github.cosmic_nightlight.desktop";
    assert!(matches!(
        set_enabled(false, &text("/a"), false),
        Ok(AutostartChange::Remove(p)) if p == path
    ));
    match set_enabled(true, &text("/a"), true) {
        Ok(AutostartChange::Install { dir, path: p, text }) => {
            assert_eq!((dir.as_str(), p.as_str()), ("/a", path));
            assert_eq!(text, entry(true));
            assert!(is_enabled(&Some(text)));
        }
        other => panic!("{other:?}"),
    }
    assert!(matches!(
        set_enabled(true, &None, false),
        Err(message) if message == "no home directory to write an autostart entry to"
    ));
    assert_eq!(daemon_args(), ["--daemon", "--managed"]);
}

#[test]
fn failures_say_what_failed() {
    let step = |step| complaint(step, "/a", "denied");
    assert_eq!(step(AutostartStep::CreateDirectory), "could not create /a: denied");
    assert_eq!(step(AutostartStep::Write), "could not write /a: denied");
    assert_eq!(
        step(AutostartStep::FindProgram),
        "could not find our own binary to start: denied"
    );
    assert_eq!(
        step(AutostartStep::StartDaemon),
        "could not start the background process: denied"
    );
    assert_eq!(removed("/a", &Removal::Removed), Ok(()));
    assert_eq!(removed("/a", &Removal::NotFound), Ok(()));
    assert_eq!(
        removed("/a", &Removal::Failed("denied".to_owned())),
        Err("could not remove /a: denied".to_owned())
    );
}

#[test]
fn only_obsolete_entries_are_removed() {
    let fossil = || EntryRead::Text("[Desktop Entry]\n".to_owned());
    let live = || EntryRead::Text(entry(false));
    let removed = |ours, renamed| remove_autostart_entries(&text("/a"), &ours, &renamed);
    let (ours, renamed) = (
        "/a/io.github.cosmic_nightlight.desktop",
        "/a/io.github.cosmic_nightshift.desktop",
    );
    assert_eq!(removed(fossil(), fossil()), [ours, renamed]);
    assert_eq!(removed(live(), fossil()), [renamed]);
    assert_eq!(removed(fossil(), live()), [ours]);
    assert_eq!(removed(EntryRead::NotFound, fossil()), [renamed]);
    assert!(removed(EntryRead::Unreadable, live()).is_empty());
    // What is gone is not removed again.
    assert!(removed(EntryRead::NotFound, EntryRead::NotFound).is_empty());
    assert!(remove_autostart_entries(&None, &fossil(), &fossil()).is_empty());
}

#[test]
fn a_second_managed_daemon_stands_down() {
    assert!(!daemon_start(true, true));
    assert!(daemon_start(true, false));
    assert!(daemon_start(false, true));
    assert!(daemon_start(false, false));
}

#[test]
fn only_a_managed_daemon_answers_to_the_switch() {
    assert_eq!(pass_start(false, false, Some(true)), PassStart::Run);
    assert_eq!(pass_start(true, false, None), PassStart::TurnedOff);
    assert_eq!(pass_start(true, true, Some(true)), PassStart::Redundant);
    assert_eq!(pass_start(true, true, Some(false)), PassStart::Run);
    assert_eq!(pass_start(true, true, None), PassStart::Run);
}

fn scheduled() -> Option<Store> {
    Some(Store {
        tint_override: text("off"),
        temperature: Some(3500),
        brightness: None,
        schedule: text("custom"),
        deferred_schedule: None,
        sunrise_minutes: Some(5 * 60),
        sunset_minutes: Some(21 * 60),
        sunrise_hour: None,
        sunset_hour: None,
        pending: Vec::new(),
    })
}

fn at(minute_of_day: u32) -> Moment {
    Moment {
        minute_of_day,
        sun: None,
    }
}

#[test]
fn a_pass_decides_and_settles() {
    let mut handler = scheduled();
    // Night, forced off: the override stands.
    let (state, settings) = run_pass(&mut handler, HostSetup::Ready, at(23 * 60));
    assert_eq!(state, None);
    assert_eq!(settings.tint_override, Override::Off);

    // Day: the override lapses, once.
    let (state, settings) = run_pass(&mut handler, HostSetup::Ready, at(12 * 60));
    assert_eq!(state, None);
    assert_eq!(settings.tint_override, Override::Auto);
    let again = run_pass(&mut handler, HostSetup::Ready, at(12 * 60));
    assert_eq!(again, (state, settings));
    assert_eq!(
        handler.as_ref().map(|store| store.pending.clone()),
        Some(vec![ConfigWrite::Override(Override::Auto)])
    );

    // Night again: the schedule is followed.
    let (state, _) = run_pass(&mut handler, HostSetup::Ready, at(23 * 60));
    assert_eq!(state, Some(3500));
}

#[test]
fn a_pass_without_a_setup_parks_the_schedule() {
    let mut handler = scheduled();
    let (state, settings) = run_pass(&mut handler, HostSetup::Needed, at(23 * 60));
    assert_eq!(state, None);
    assert_eq!(settings.schedule, Schedule::Manual);
    assert_eq!(settings.deferred_schedule, Some(Schedule::Custom));
    assert_eq!(Settings::load_from(&handler), settings);
    // Parking leaves nothing scheduled, so the force-off lapses with it.
    assert_eq!(settings.tint_override, Override::Auto);
}

#[test]
fn what_was_applied_is_said() {
    assert_eq!(
        applied_message(Some(3500)),
        "cosmic-nightlight: applied 3500K"
    );
    assert_eq!(applied_message(None), "cosmic-nightlight: cleared tint");
}

#[test]
fn the_foreground_terminal_is_read() {
    assert_eq!(foreground_vt(&text("tty2\n")), Some(2));
    assert_eq!(foreground_vt(&text("2")), None);
    assert_eq!(foreground_vt(&text("ttyS0")), None);
    assert_eq!(foreground_vt(&None), None);
}

#[test]
fn the_session_is_waited_for_with_a_limit() {
    let wait = |session: Option<String>, active: &str, waited| {
        wait_for_session_foreground(&session, &text(active), waited)
    };
    assert_eq!(wait(text("2"), "tty2\n", 0), SessionWait::Ready);
    assert_eq!(wait(text("2"), "tty1\n", 0), SessionWait::Wait);
    assert_eq!(
        wait(text("2"), "tty1\n", SESSION_READY_TIMEOUT_MS),
        SessionWait::TimedOut
    );
    assert_eq!(wait(None, "tty1\n", 0), SessionWait::Ready);
    assert_eq!(wait(text("x"), "tty1\n", 0), SessionWait::Ready);
    assert_eq!(
        wait_for_session_foreground(&text("2"), &None, 0),
        SessionWait::Wait
    );
}

#[test]
fn the_toggle_is_relative_to_the_schedule() {
    let settings = Settings {
        schedule: Schedule::Custom,
        sunset_minutes: 21 * 60,
        sunrise_minutes: 5 * 60,
        ..Settings::default()
    };
    let (night, day) = (at(23 * 60), at(12 * 60));
    assert_eq!(toggle_override(&settings, true, night), Override::Auto);
    assert_eq!(toggle_override(&settings, false, night), Override::Off);
    assert_eq!(toggle_override(&settings, true, day), Override::On);
    assert_eq!(toggle_override(&settings, false, day), Override::Auto);
}

#[test]
fn deciding_parks_before_it_expires() {
    // Forced on at night with no setup: parking leaves nothing scheduled, so the
    // override still stands.
    let mut handler = scheduled();
    let mut settings = Settings {
        tint_override: Override::On,
        ..Settings::load_from(&handler)
    };
    decide(&mut handler, &mut settings, HostSetup::Needed, at(23 * 60));
    assert_eq!(settings.tint_override, Override::On);
    assert_eq!(settings.schedule, Schedule::Manual);
    assert_eq!(settings.desired_at(at(23 * 60)), Some(3500));
}

#[test]
fn the_present_moment_is_a_time_of_day() {
    assert!(Moment::now(None).minute_of_day < 24 * 60);
}
