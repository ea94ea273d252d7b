use cosmic_nightlight::apply::{
    applied, backing_off, backoff_write_failed, discard_record_if_resumed, record_write_failed,
    refused_since, ApplyMemory, ClockSample, DiskWrite, RuntimeDir, SUSPEND_SKEW_SECS,
};
use cosmic_nightlight::backoff::Failure;
use cosmic_nightlight::brightness::Brightness;
use cosmic_nightlight::helper::HelperOutcome;
use cosmic_nightlight::host::{HostMemory, Surroundings};
use cosmic_nightlight::reconcile::{
    apply_finished, apply_now, coalesce, host_setup_finished, reconcile, reconcile_finished,
    run_host_setup, setup_program, Reconcile, ReconcileStep, Request, SetupExit,
};
use cosmic_nightlight::time::{Duration, SystemTime};

const START: u64 = 1_753_000_000;

fn wall(seconds: u64) -> SystemTime {
    SystemTime::after_epoch(Duration::from_secs(START + seconds)).expect("a moment")
}

/// Both clocks, `seconds` in, having stood still for `asleep` of them.
fn clocks(seconds: u64, asleep: u64) -> ClockSample {
    ClockSample {
        monotonic: Duration::from_secs(1_000 + seconds - asleep),
        wall: wall(seconds),
    }
}

fn runtime_dir() -> RuntimeDir {
    RuntimeDir {
        reachable: true,
        applied: None,
        backoff: None,
        pending: Vec::new(),
    }
}

#[test]
fn a_session_that_starts_neutral_costs_no_reset() {
    let mut memory = ApplyMemory::fresh();
    let mut dir = runtime_dir();
    assert_eq!(
        reconcile(&mut memory, &mut dir, None, clocks(0, 0), None),
        ReconcileStep::Settled(Reconcile::UpToDate)
    );
    assert_eq!(dir.pending, vec![]);
}

#[test]
fn one_apply_settles_every_process() {
    let mut first = ApplyMemory::fresh();
    let mut second = ApplyMemory::fresh();
    let mut dir = runtime_dir();

    let wanted = Some(3500);
    assert_eq!(
        reconcile(&mut first, &mut dir, wanted, clocks(0, 0), None),
        ReconcileStep::Run
    );
    assert_eq!(
        reconcile_finished(&mut first, &mut dir, wanted, HelperOutcome::Applied, wall(1)),
        Reconcile::Applied
    );
    assert_eq!(
        dir.pending,
        vec![DiskWrite::RecordApplied(wanted), DiskWrite::RemoveBackoff]
    );
    assert_eq!(dir.applied.as_deref(), Some("3500"));

    assert_eq!(
        reconcile(&mut second, &mut dir, wanted, clocks(1, 0), None),
        ReconcileStep::Settled(Reconcile::UpToDate)
    );
    assert_eq!(applied(&second, &dir), Some(wanted));
    // A different state is still worth applying.
    assert_eq!(
        reconcile(&mut second, &mut dir, None, clocks(2, 0), None),
        ReconcileStep::Run
    );
}

#[test]
fn one_refusal_holds_off_every_process() {
    let mut first = ApplyMemory::fresh();
    let mut second = ApplyMemory::fresh();
    let mut dir = runtime_dir();

    assert_eq!(
        reconcile_finished(
            &mut first,
            &mut dir,
            Some(3500),
            HelperOutcome::Failed(Failure::Auth),
            wall(0)
        ),
        Reconcile::Pending
    );
    assert_eq!(dir.backoff.as_deref(), Some("3500 1753003600 3600 auth"));
    for state in [Some(3500), Some(4000)] {
        assert_eq!(
            reconcile(&mut second, &mut dir, state, clocks(1, 0), None),
            ReconcileStep::Settled(Reconcile::Pending)
        );
        assert!(backing_off(&second, &dir, state, wall(3_599)));
        assert!(!backing_off(&second, &dir, state, wall(3_600)));
    }
    // What was queued before the refusal is answered by it; what comes after is
    // the user trying again.
    assert!(!apply_now(&second, &dir, wall(0)));
    assert!(refused_since(&second, &dir, wall(0)));
    assert!(apply_now(&second, &dir, wall(1)));

    // A success clears it for everyone.
    assert!(apply_finished(
        &mut second,
        &mut dir,
        Some(4000),
        HelperOutcome::Applied,
        wall(2)
    ));
    assert_eq!(dir.backoff, None);
    assert!(!backing_off(&second, &dir, Some(3500), wall(3)));
}

#[test]
fn a_repeated_failure_doubles_once_per_attempt() {
    let mut first = ApplyMemory::fresh();
    let mut second = ApplyMemory::fresh();
    let mut dir = runtime_dir();
    let fault = HelperOutcome::Failed(Failure::Other);

    assert!(!apply_finished(&mut first, &mut dir, Some(3500), fault, wall(0)));
    assert_eq!(dir.backoff.as_deref(), Some("3500 1753000005 5 other"));
    assert!(!apply_finished(&mut second, &mut dir, Some(3500), fault, wall(5)));
    assert_eq!(dir.backoff.as_deref(), Some("3500 1753000015 10 other"));
    // A fault at another state starts over.
    assert!(!apply_finished(&mut first, &mut dir, None, fault, wall(20)));
    assert_eq!(dir.backoff.as_deref(), Some("off 1753000025 5 other"));
}

#[test]
fn without_a_runtime_dir_each_process_keeps_its_own_count() {
    let mut memory = ApplyMemory::fresh();
    let mut dir = RuntimeDir {
        reachable: false,
        ..runtime_dir()
    };
    let fault = HelperOutcome::Failed(Failure::Other);
    assert!(!apply_finished(&mut memory, &mut dir, Some(3500), fault, wall(0)));
    assert_eq!(dir.pending, vec![]);
    assert!(backing_off(&memory, &dir, Some(3500), wall(1)));
    assert!(apply_finished(
        &mut memory,
        &mut dir,
        Some(3500),
        HelperOutcome::Applied,
        wall(6)
    ));
    assert_eq!(applied(&memory, &dir), Some(Some(3500)));
    assert!(!backing_off(&memory, &dir, Some(3500), wall(7)));
}

#[test]
fn a_record_that_cannot_be_written_is_not_read_again() {
    let mut memory = ApplyMemory::fresh();
    let mut dir = RuntimeDir {
        applied: Some("off".to_owned()),
        ..runtime_dir()
    };
    assert!(apply_finished(
        &mut memory,
        &mut dir,
        Some(3500),
        HelperOutcome::Applied,
        wall(0)
    ));
    // The write failed, so the disk still says what it said.
    dir.applied = Some("off".to_owned());
    assert_eq!(applied(&memory, &dir), Some(None));
    record_write_failed(&mut memory);
    assert_eq!(applied(&memory, &dir), Some(Some(3500)));

    dir.backoff = Some("3500 1 1 auth".to_owned());
    backoff_write_failed(&mut dir);
    assert_eq!(dir.backoff, None);
}

#[test]
fn an_unreadable_record_is_unknown() {
    let memory = ApplyMemory {
        assumed: None,
        ..ApplyMemory::fresh()
    };
    let dir = RuntimeDir {
        applied: Some("garbage".to_owned()),
        ..runtime_dir()
    };
    assert_eq!(applied(&memory, &dir), None);
}

#[test]
fn a_resume_pushes_the_tint_again() {
    let mut memory = ApplyMemory::fresh();
    let mut dir = RuntimeDir {
        applied: Some("3500".to_owned()),
        ..runtime_dir()
    };
    let wanted = Some(3500);
    // The first reconcile has nothing to compare against.
    assert_eq!(
        reconcile(&mut memory, &mut dir, wanted, clocks(0, 0), None),
        ReconcileStep::Settled(Reconcile::UpToDate)
    );
    // Awake for a tick.
    assert_eq!(
        reconcile(&mut memory, &mut dir, wanted, clocks(15, 0), Some(wall(0))),
        ReconcileStep::Settled(Reconcile::UpToDate)
    );
    // Asleep for an hour, and nothing recorded since.
    assert_eq!(
        reconcile(&mut memory, &mut dir, wanted, clocks(3_630, 3_600), Some(wall(0))),
        ReconcileStep::Run
    );
    assert_eq!(dir.applied, None);
    assert_eq!(dir.pending, vec![DiskWrite::RemoveApplied]);
}

#[test]
fn a_record_written_since_the_resume_is_kept() {
    let mut memory = ApplyMemory {
        clocks: Some(clocks(0, 0)),
        ..ApplyMemory::fresh()
    };
    let mut dir = RuntimeDir {
        applied: Some("3500".to_owned()),
        ..runtime_dir()
    };
    // Resumed at 3600 by this reckoning, and another process applied at 3605.
    assert!(!discard_record_if_resumed(
        &mut memory,
        &mut dir,
        clocks(3_615, 3_600),
        Some(wall(3_605))
    ));
    assert_eq!(dir.applied.as_deref(), Some("3500"));
}

#[test]
fn drift_and_a_clock_set_back_are_not_a_resume() {
    let start = || ApplyMemory {
        clocks: Some(clocks(100, 0)),
        ..ApplyMemory::fresh()
    };
    let mut dir = runtime_dir();
    let slept = |seconds| clocks(115 + seconds, seconds);
    assert!(!discard_record_if_resumed(
        &mut start(),
        &mut dir,
        slept(SUSPEND_SKEW_SECS - 1),
        None
    ));
    assert!(discard_record_if_resumed(
        &mut start(),
        &mut dir,
        slept(SUSPEND_SKEW_SECS),
        None
    ));
    let set_back = ClockSample {
        monotonic: Duration::from_secs(1_115),
        wall: wall(0),
    };
    assert!(!discard_record_if_resumed(&mut start(), &mut dir, set_back, None));
}

#[test]
fn only_the_newest_request_is_run() {
    let request = |kelvin| Request::Reconcile {
        state: Some(kelvin),
        brightness: Brightness::full(),
    };
    assert_eq!(coalesce(request(1), vec![]), request(1));
    assert_eq!(
        coalesce(request(1), vec![request(2), request(3)]),
        request(3)
    );
}

fn sandboxed() -> Surroundings {
    Surroundings {
        in_flatpak: true,
        flatpak_info: Some("app-path=/app\n".to_owned()),
        helper_override: None,
        session_vt: None,
    }
}

#[test]
fn the_setup_runs_only_in_a_flatpak() {
    assert_eq!(
        setup_program(&sandboxed()).as_deref(),
        Ok("/app/libexec/cosmic-nightlight-setup")
    );
    assert_eq!(
        setup_program(&Surroundings {
            in_flatpak: false,
            ..sandboxed()
        }),
        Err("the host setup applies to the flatpak build only".to_owned())
    );
    assert_eq!(
        setup_program(&Surroundings {
            flatpak_info: None,
            ..sandboxed()
        }),
        Err("could not find the setup program inside the flatpak".to_owned())
    );
}

#[test]
fn a_refused_setup_is_not_asked_again_for_what_was_queued() {
    let mut memory = ApplyMemory::fresh();
    let mut dir = runtime_dir();
    let mut host = HostMemory {
        helper: Some("/h".to_owned()),
        setup_ready: true,
        setup_ineffective: false,
    };
    assert_eq!(
        run_host_setup(&memory, &dir, "/s", wall(0)),
        Ok(vec!["--host".to_owned(), "pkexec".to_owned(), "/s".to_owned()])
    );
    let dismissed = SetupExit::Ended(Some(126), "exit status: 126".to_owned());
    assert_eq!(
        host_setup_finished(&mut host, &mut memory, &mut dir, &dismissed, wall(10)),
        Err("the password prompt was dismissed".to_owned())
    );
    assert!(host.helper.is_none() && !host.setup_ready);
    assert_eq!(dir.backoff.as_deref(), Some("off 1753003610 3600 auth"));
    assert_eq!(
        run_host_setup(&memory, &dir, "/s", wall(5)),
        Err("the password prompt was dismissed".to_owned())
    );
    assert!(run_host_setup(&memory, &dir, "/s", wall(11)).is_ok());
}

#[test]
fn every_way_a_setup_ends_is_explained() {
    let end = |exit: SetupExit| {
        let mut memory = ApplyMemory::fresh();
        let mut dir = RuntimeDir {
            backoff: Some("3500 1753000005 5 other".to_owned()),
            ..runtime_dir()
        };
        let mut host = HostMemory::fresh();
        let result = host_setup_finished(&mut host, &mut memory, &mut dir, &exit, wall(0));
        (result, dir.backoff)
    };
    let kept = Some("3500 1753000005 5 other".to_owned());
    assert_eq!(end(SetupExit::Ended(Some(0), String::new())), (Ok(()), None));
    assert_eq!(
        end(SetupExit::Ended(Some(127), String::new())),
        (
            Err("authentication failed, or the setup could not be run on the host".to_owned()),
            Some("off 1753003600 3600 auth".to_owned())
        )
    );
    assert_eq!(
        end(SetupExit::Ended(Some(1), "exit status: 1".to_owned())),
        (
            Err("the setup exited with exit status: 1".to_owned()),
            kept.clone()
        )
    );
    assert_eq!(
        end(SetupExit::NotLaunched("no such file".to_owned())),
        (
            Err("could not reach the host (no such file)".to_owned()),
            kept
        )
    );
}

#[test]
fn an_unshared_refusal_answers_to_the_moment() {
    let mut memory = ApplyMemory::fresh();
    let mut dir = RuntimeDir {
        reachable: false,
        ..runtime_dir()
    };
    let half_past = |seconds: u64, nanos| {
        SystemTime::after_epoch(Duration::new(START + seconds, nanos)).expect("a moment")
    };
    apply_finished(
        &mut memory,
        &mut dir,
        Some(3500),
        HelperOutcome::Failed(Failure::Auth),
        half_past(0, 700_000_000),
    );
    assert!(refused_since(&memory, &dir, half_past(0, 500_000_000)));
    assert!(refused_since(&memory, &dir, half_past(0, 700_000_000)));
    assert!(!refused_since(&memory, &dir, half_past(0, 700_000_001)));

    // Through the shared record only the whole second counts.
    let mut shared = runtime_dir();
    apply_finished(
        &mut memory,
        &mut shared,
        Some(3500),
        HelperOutcome::Failed(Failure::Auth),
        half_past(0, 700_000_000),
    );
    assert!(refused_since(&memory, &shared, wall(0)));
    assert!(!refused_since(&memory, &shared, half_past(0, 500_000_000)));
}

#[test]
fn a_deadline_no_clock_can_hold_stands_in_nobodys_way() {
    let memory = ApplyMemory::fresh();
    let dir = RuntimeDir {
        backoff: Some("off 18446744073709551615 3600 auth".to_owned()),
        ..runtime_dir()
    };
    assert!(apply_now(&memory, &dir, wall(0)));
    assert!(run_host_setup(&memory, &dir, "/s", wall(0)).is_ok());
    assert!(!backing_off(&memory, &dir, None, wall(0)));
}

#[test]
fn a_failed_reconcile_leaves_the_screen_as_it_was() {
    let mut memory = ApplyMemory::fresh();
    let mut dir = RuntimeDir {
        applied: Some("3500".to_owned()),
        ..runtime_dir()
    };
    assert_eq!(
        reconcile(&mut memory, &mut dir, None, clocks(0, 0), None),
        ReconcileStep::Run
    );
    let fault = HelperOutcome::Failed(Failure::Other);
    assert_eq!(
        reconcile_finished(&mut memory, &mut dir, None, fault, wall(1)),
        Reconcile::Pending
    );
    assert_eq!(applied(&memory, &dir), Some(Some(3500)));
    assert_eq!(
        reconcile(&mut memory, &mut dir, None, clocks(2, 0), None),
        ReconcileStep::Settled(Reconcile::Pending)
    );
}
