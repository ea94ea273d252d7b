use cosmic_nightlight::backoff::{
    answers_a_request_from, format_backoff, holds, parse_backoff, retry_delay, Backoff, Failure,
    FIRST_AUTH_RETRY_SECS, FIRST_RETRY_SECS, MAX_AUTH_RETRY_SECS, MAX_RETRY_SECS,
};
use cosmic_nightlight::record::{format_applied, parse_applied, TintState};
use cosmic_nightlight::time::{Duration, SystemTime};

fn secs(secs: u64) -> Duration {
    Duration::from_secs(secs)
}

/// The clock `seconds` after the moment the tests call now.
fn after(seconds: u64) -> SystemTime {
    SystemTime::after_epoch(secs(1_753_000_000 + seconds)).expect("a moment a clock can hold")
}

/// A fixed, arbitrary "now", so the tests read the same whenever they run.
fn t0() -> SystemTime {
    after(0)
}

/// A refusal recorded at `seconds` after [`t0`].
fn refusal_at(seconds: u64, state: TintState) -> Backoff {
    Backoff {
        state,
        retry_at: after(seconds + FIRST_AUTH_RETRY_SECS),
        delay: secs(FIRST_AUTH_RETRY_SECS),
        failure: Failure::Auth,
    }
}

#[test]
fn applied_state_round_trips() {
    for state in [None, Some(2500), Some(6500)] {
        assert_eq!(parse_applied(&format_applied(state)), Some(state));
    }
}

#[test]
fn a_trailing_newline_is_tolerated() {
    assert_eq!(parse_applied("off\n"), Some(None));
    assert_eq!(parse_applied(" 3500 \n"), Some(Some(3500)));
}

#[test]
fn unreadable_records_are_unknown_not_off() {
    assert_eq!(parse_applied(""), None);
    assert_eq!(parse_applied("garbage"), None);
    assert_eq!(parse_applied("-1"), None);
}

#[test]
fn records_are_written_in_plain_words() {
    assert_eq!(format_applied(None), "off");
    assert_eq!(format_applied(Some(3500)), "3500");
    assert_eq!(parse_applied("+3500"), Some(Some(3500)));
    assert_eq!(parse_applied("4294967295"), Some(Some(u32::MAX)));
    assert_eq!(parse_applied("4294967296"), None);
    assert_eq!(parse_applied("\u{2003}off\u{a0}"), Some(None));
}

/// Replays the backoff against the reconcile tick, counting how many times a
/// persistent failure would reach `pkexec` over `hours`.
fn attempts_over(hours: u64, failure: Failure) -> usize {
    let mut elapsed: u64 = 0;
    let mut delay: Option<Duration> = None;
    let mut next_attempt: u64 = 0;
    let mut attempts = 0;

    while elapsed < hours * 60 * 60 {
        if elapsed >= next_attempt {
            attempts += 1;
            let waited = retry_delay(delay, failure);
            next_attempt = elapsed + waited.as_secs();
            delay = Some(waited);
        }
        elapsed += cosmic_nightlight::tick::TICK_SECS;
    }
    attempts
}

#[test]
fn an_ordinary_failure_retries_briskly() {
    assert_eq!(retry_delay(None, Failure::Other), secs(FIRST_RETRY_SECS));
    assert!(attempts_over(8, Failure::Other) > 90);
}

#[test]
fn a_dismissed_prompt_does_not_besiege_the_user() {
    assert_eq!(retry_delay(None, Failure::Auth), secs(FIRST_AUTH_RETRY_SECS));
    let prompts = attempts_over(8, Failure::Auth);
    assert!(
        (1..=4).contains(&prompts),
        "a dismissed prompt should be re-offered a couple of times a night, got {prompts}"
    );
}

#[test]
fn the_two_scales_do_not_leak_into_each_other() {
    // A dismissal after a run of fast retries still waits the full hour.
    assert_eq!(
        retry_delay(Some(secs(FIRST_RETRY_SECS)), Failure::Auth),
        secs(FIRST_AUTH_RETRY_SECS)
    );
    assert_eq!(
        retry_delay(Some(secs(MAX_RETRY_SECS)), Failure::Auth),
        secs(FIRST_AUTH_RETRY_SECS)
    );
    // An ordinary fault after a dismissal doesn't inherit the hours.
    assert_eq!(
        retry_delay(Some(secs(MAX_AUTH_RETRY_SECS)), Failure::Other),
        secs(MAX_RETRY_SECS)
    );
}

#[test]
fn waits_double_in_between() {
    assert_eq!(retry_delay(Some(secs(5)), Failure::Other), secs(10));
    assert_eq!(retry_delay(Some(secs(160)), Failure::Other), secs(300));
    assert_eq!(retry_delay(Some(secs(3_600)), Failure::Auth), secs(7_200));
    assert_eq!(
        retry_delay(Some(Duration::new(5, 500_000_000)), Failure::Other),
        secs(11)
    );
}

#[test]
fn a_backoff_round_trips() {
    for state in [None, Some(2500), Some(6500)] {
        for failure in [Failure::Auth, Failure::Other] {
            let backoff = Backoff {
                state,
                // Truncated to the whole second the format stores.
                retry_at: t0(),
                delay: secs(FIRST_AUTH_RETRY_SECS),
                failure,
            };
            assert_eq!(parse_backoff(&format_backoff(&backoff)), Some(backoff));
        }
    }
}

#[test]
fn a_backoff_reads_as_four_words() {
    let refused = refusal_at(0, Some(3500));
    assert_eq!(format_backoff(&refused), "3500 1753003600 3600 auth");
    assert_eq!(
        parse_backoff("off 1753000000 5 other trailing words"),
        Some(Backoff {
            state: None,
            retry_at: t0(),
            delay: secs(5),
            failure: Failure::Other,
        })
    );
}

#[test]
fn unreadable_backoffs_are_ignored() {
    assert_eq!(parse_backoff(""), None);
    assert_eq!(parse_backoff("garbage"), None);
    // Truncated writes, and a record in a format nobody understands.
    assert_eq!(parse_backoff("3500"), None);
    assert_eq!(parse_backoff("3500 1753000000"), None);
    assert_eq!(parse_backoff("3500 1753000000 3600"), None);
    assert_eq!(parse_backoff("off notanumber 3600 auth"), None);
    assert_eq!(parse_backoff("3500 1753000000 3600 sideways"), None);
}

/// A deadline that no clock can hold makes a record unreadable.
#[test]
fn a_deadline_no_clock_can_hold_is_ignored() {
    assert_eq!(parse_backoff("off 18446744073709551615 3600 auth"), None);
    assert_eq!(parse_backoff("off 9223372036854775808 3600 auth"), None);
    assert_eq!(
        parse_backoff("off 9223372036854775807 18446744073709551615 auth"),
        Some(Backoff {
            state: None,
            retry_at: SystemTime::after_epoch(secs(i64::MAX as u64)).expect("the last second"),
            delay: secs(u64::MAX),
            failure: Failure::Auth,
        })
    );
}

#[test]
fn the_clock_ends_where_its_seconds_do() {
    let last = i64::MAX as u64;
    assert!(SystemTime::after_epoch(Duration::new(last, 999_999_999)).is_some());
    assert_eq!(SystemTime::after_epoch(secs(last + 1)), None);
    let first = SystemTime::before_epoch(secs(last + 1)).expect("the first second");
    assert_eq!(SystemTime::before_epoch(Duration::new(last + 1, 1)), None);
    assert_eq!(first.unix_seconds(), 0);
    let end = SystemTime::after_epoch(secs(last)).expect("the last second");
    assert_eq!(end.checked_add(secs(1)), None);
    assert!(end.checked_add(Duration::new(0, 999_999_999)).is_some());
}

#[test]
fn a_refusal_one_process_collected_holds_off_the_others() {
    let refused = refusal_at(0, Some(3500));
    // What the second process reads back a moment later.
    let shared = parse_backoff(&format_backoff(&refused)).expect("a record we just wrote");

    assert!(holds(&shared, Some(3500), after(1)));
    // Still holding most of an hour later, and released after it.
    assert!(holds(&shared, Some(3500), after(3_500)));
    assert!(!holds(&shared, Some(3500), after(FIRST_AUTH_RETRY_SECS)));
}

#[test]
fn an_ordinary_fault_does_not_hold_off_a_different_state() {
    let failed = Backoff {
        state: Some(3500),
        retry_at: after(FIRST_RETRY_SECS),
        delay: secs(FIRST_RETRY_SECS),
        failure: Failure::Other,
    };

    assert!(holds(&failed, Some(3500), t0()));
    assert!(!holds(&failed, Some(4000), t0()));
    assert!(!holds(&failed, None, t0()));
}

#[test]
fn a_refusal_holds_off_every_state() {
    let refused = refusal_at(0, Some(3500));

    assert!(holds(&refused, Some(3500), t0()));
    assert!(holds(&refused, Some(4000), t0()));
    assert!(holds(&refused, None, t0()));
}

#[test]
fn a_refusal_answers_everything_queued_before_it() {
    let clicked_toggle = t0();
    let changed_temperature = after(3);
    let picked_a_schedule = after(6);
    // The user cancels a few seconds after that, and the refusal is recorded
    // then rather than when the toggle was clicked.
    let refused = refusal_at(9, Some(3500));

    for (requested_at, what) in [
        (clicked_toggle, "the toggle"),
        (changed_temperature, "the temperature"),
        (picked_a_schedule, "the schedule"),
    ] {
        assert!(
            answers_a_request_from(&refused, requested_at),
            "{what} was asked for before the refusal, so the refusal answers it"
        );
    }
}

#[test]
fn a_refusal_does_not_answer_a_request_made_after_it() {
    let refused = refusal_at(0, Some(3500));

    assert!(!answers_a_request_from(&refused, after(1)));
}

#[test]
fn an_ordinary_fault_answers_nothing() {
    let failed = Backoff {
        failure: Failure::Other,
        ..refusal_at(9, Some(3500))
    };

    assert!(!answers_a_request_from(&failed, t0()));
}

#[test]
fn a_deadline_beyond_any_we_set_is_treated_as_expired() {
    let stepped_back = Backoff {
        retry_at: after(MAX_AUTH_RETRY_SECS + 1),
        delay: secs(MAX_AUTH_RETRY_SECS),
        ..refusal_at(0, Some(3500))
    };

    assert!(!holds(&stepped_back, Some(3500), t0()));
    // The longest wait we do set is still honored, so the clamp cannot eat a
    // legitimate backoff.
    assert!(holds(
        &Backoff {
            retry_at: after(MAX_AUTH_RETRY_SECS),
            ..stepped_back
        },
        Some(3500),
        t0()
    ));
}

#[test]
fn both_scales_are_bounded() {
    let mut delay = secs(FIRST_RETRY_SECS);
    let mut auth = secs(FIRST_AUTH_RETRY_SECS);
    for _ in 0..40 {
        delay = retry_delay(Some(delay), Failure::Other);
        auth = retry_delay(Some(auth), Failure::Auth);
    }
    assert_eq!(delay, secs(MAX_RETRY_SECS));
    assert_eq!(auth, secs(MAX_AUTH_RETRY_SECS));
}
