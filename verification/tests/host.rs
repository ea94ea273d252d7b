use cosmic_nightlight::backoff::Failure;
use cosmic_nightlight::helper::{
    apply_args, helper_finished, run_helper, Exit, HelperOutcome, PKEXEC_DISMISSED,
    PKEXEC_NOT_AUTHORIZED,
};
use cosmic_nightlight::host::{
    bundled_host_path, counts_as_installed, directory_of, helper_path, host_has_polkit_rule,
    host_helper_contract, host_setup, host_test, privileged_program, probe_host_helper,
    probe_host_setup, probe_rule, program_exists, session_vt_args, HostHelper, HostMemory,
    HostSetup, Known, Probe, Question, RuleProbe, Surroundings, Test, HELPER_CANDIDATES,
    RULE_CANDIDATES, SETUP_INSTALLS_TO,
};

const INFO: &str = "[Instance]\n  app-path=/var/lib/flatpak/app/night/active \nother=1\n";
const BUNDLED: &str = "/var/lib/flatpak/app/night/active/libexec/cosmic-nightlight-helper";
const SETUP: &str = "/var/lib/flatpak/app/night/active/libexec/cosmic-nightlight-setup";
const RULES: &str = "/etc/polkit-1/rules.d";

fn info() -> Option<String> {
    Some(INFO.to_owned())
}

fn sandboxed() -> Surroundings {
    Surroundings {
        in_flatpak: true,
        flatpak_info: info(),
        helper_override: None,
        session_vt: Some("2".to_owned()),
    }
}

fn unsandboxed() -> Surroundings {
    Surroundings {
        in_flatpak: false,
        flatpak_info: None,
        helper_override: None,
        session_vt: None,
    }
}

/// A host on which these paths pass these tests and every other test fails, and
/// whose helpers all print `version`.
struct Host {
    yes: Vec<(Test, &'static str)>,
    version: Option<&'static str>,
}

impl Host {
    /// Answers questions until a decision is reached, counting them.
    fn settle<T>(&self, mut decide: impl FnMut(&Known) -> Probe<T>) -> (T, usize) {
        let mut known = Known::nothing();
        let mut asked = 0;
        loop {
            match decide(&known) {
                Probe::Done(value) => return (value, asked),
                Probe::Ask(Question::Test(test, path)) => {
                    assert_eq!(known.tested(test, &path), None, "asked twice");
                    let yes = self.yes.iter().any(|(t, p)| *t == test && *p == path);
                    known.learn_test(test, path, yes);
                }
                Probe::Ask(Question::Version(path)) => {
                    known.learn_version(path, self.version.map(str::to_owned));
                }
            }
            asked += 1;
            assert!(asked < 12, "a probe must end");
        }
    }

    fn setup(&self) -> HostSetup {
        self.settle(|known| probe_host_setup(known, true, &info())).0
    }
}

fn current() -> Option<&'static str> {
    Some("cosmic-nightlight-helper 0.5.0 (contract 1)")
}

#[test]
fn a_rule_we_cannot_see_is_not_a_rule_that_is_missing() {
    assert!(counts_as_installed(RuleProbe::Present));
    assert!(counts_as_installed(RuleProbe::Unreadable));
    assert!(!counts_as_installed(RuleProbe::Absent));
}

#[test]
fn every_rule_candidate_has_a_directory_to_probe() {
    for path in RULE_CANDIDATES {
        assert!(
            std::path::Path::new(path)
                .parent()
                .and_then(std::path::Path::to_str)
                .is_some(),
            "{path} has no parent directory"
        );
        assert_eq!(
            directory_of(path).as_deref(),
            std::path::Path::new(path)
                .parent()
                .and_then(std::path::Path::to_str),
        );
    }
}

#[test]
fn directories_are_told_as_the_standard_library_tells_them() {
    for path in [
        "", "/", "//", "/x", "x", "/a/", "/a//", "/a/b", "/a//b", "//a", "a/b", "a/", ".", "./",
        "./a", "./.", "/.", "/./.", "..", "/..", "a/..", "a/.", "/a/./b", "/a/b/.", "/a/b/./",
        "a.", "/a.", "/a/b.", "...", "/ä/ö", "/a/..",
    ] {
        assert_eq!(
            directory_of(path).as_deref(),
            std::path::Path::new(path)
                .parent()
                .and_then(std::path::Path::to_str),
            "{path:?}"
        );
    }
}

#[test]
fn bundled_programs_are_named_by_their_path_on_the_host() {
    assert_eq!(
        bundled_host_path(&info(), "cosmic-nightlight-helper").as_deref(),
        Some(BUNDLED)
    );
    assert_eq!(bundled_host_path(&Some("nothing".to_owned()), "x"), None);
    assert_eq!(bundled_host_path(&None, "x"), None);
}

#[test]
fn rules_are_told_apart_from_directories_closed_to_us() {
    let rule = |host: Host| host.settle(|known| probe_rule(known, RULE_CANDIDATES[0])).0;
    let with = |yes: Vec<(Test, &'static str)>| Host { yes, version: None };
    assert_eq!(
        rule(with(vec![(Test::HostFile, RULE_CANDIDATES[0])])),
        RuleProbe::Present
    );
    assert_eq!(rule(with(vec![])), RuleProbe::Absent);
    assert_eq!(
        rule(with(vec![(Test::HostDirectory, RULES)])),
        RuleProbe::Unreadable
    );
    assert_eq!(
        rule(with(vec![
            (Test::HostDirectory, RULES),
            (Test::HostExecutable, RULES),
        ])),
        RuleProbe::Absent
    );
    let second = with(vec![(Test::HostFile, RULE_CANDIDATES[1])]);
    assert!(second.settle(host_has_polkit_rule).0);
    assert!(!with(vec![]).settle(host_has_polkit_rule).0);
}

#[test]
fn helpers_are_looked_for_in_order() {
    let helper = |yes: Vec<(Test, &'static str)>| {
        let bundled = Some(BUNDLED.to_owned());
        Host { yes, version: None }
            .settle(|known| probe_host_helper(known, &bundled))
            .0
    };
    let x = Test::HostExecutable;
    assert!(matches!(
        helper(vec![(x, HELPER_CANDIDATES[1]), (x, BUNDLED)]),
        HostHelper::Whitelisted(path) if path == HELPER_CANDIDATES[1]
    ));
    assert!(matches!(
        helper(vec![(x, BUNDLED)]),
        HostHelper::Bundled(path) if path == BUNDLED
    ));
    assert!(matches!(helper(vec![]), HostHelper::Missing));
}

#[test]
fn the_setup_is_needed_until_both_halves_are_there() {
    let x = Test::HostExecutable;
    let host = |yes, version| Host { yes, version };
    assert_eq!(host(vec![], None).setup(), HostSetup::Needed);
    assert_eq!(host(vec![(x, BUNDLED)], None).setup(), HostSetup::Needed);
    assert_eq!(
        host(vec![(x, HELPER_CANDIDATES[0])], current()).setup(),
        HostSetup::Needed,
        "a helper without its rule"
    );
    assert_eq!(
        host(vec![(Test::HostFile, RULE_CANDIDATES[0])], current()).setup(),
        HostSetup::Needed,
        "a rule without its helper"
    );
    let complete = || {
        vec![
            (x, HELPER_CANDIDATES[1]),
            (Test::HostFile, RULE_CANDIDATES[0]),
        ]
    };
    assert_eq!(host(complete(), current()).setup(), HostSetup::Ready);
    assert_eq!(host(complete(), None).setup(), HostSetup::Outdated);
    assert_eq!(
        host(complete(), Some("(contract 0)")).setup(),
        HostSetup::Outdated
    );
    assert_eq!(
        host(
            vec![(x, HELPER_CANDIDATES[1]), (Test::HostDirectory, RULES)],
            current()
        )
        .setup(),
        HostSetup::Ready,
        "a rule closed to us counts"
    );
    assert_eq!(host_helper_contract(&Some("(contract 7)".to_owned())), Some(7));
    assert_eq!(host_helper_contract(&None), None);
}

#[test]
fn outside_a_flatpak_there_is_nothing_to_set_up() {
    let known = Known::nothing();
    assert!(matches!(
        probe_host_setup(&known, false, &None),
        Probe::Done(HostSetup::Ready)
    ));
}

#[test]
fn only_a_ready_host_is_remembered() {
    let bare = Host {
        yes: vec![],
        version: None,
    };
    let ready = Host {
        yes: vec![
            (Test::HostExecutable, HELPER_CANDIDATES[0]),
            (Test::HostFile, RULE_CANDIDATES[0]),
        ],
        version: current(),
    };
    let mut memory = HostMemory::fresh();
    let (state, asked) = bare.settle(|known| host_setup(&mut memory, known, true, &info()));
    assert_eq!(state, HostSetup::Needed);
    assert!(asked > 0);
    assert!(!memory.setup_ready);

    let (state, _) = ready.settle(|known| host_setup(&mut memory, known, true, &info()));
    assert_eq!(state, HostSetup::Ready);

    // Answered from memory now, whatever the host looks like.
    let (state, asked) = bare.settle(|known| host_setup(&mut memory, known, true, &info()));
    assert_eq!((state, asked), (HostSetup::Ready, 0));

    cosmic_nightlight::host::forget_host_helper(&mut memory);
    let (state, _) = bare.settle(|known| host_setup(&mut memory, known, true, &info()));
    assert_eq!(state, HostSetup::Needed);
}

#[test]
fn an_apply_runs_the_setup_until_the_host_is_ready() {
    let x = Test::HostExecutable;
    let bare = Host {
        yes: vec![(x, BUNDLED)],
        version: None,
    };
    let around = sandboxed();
    let mut memory = HostMemory::fresh();
    let (program, _) = bare.settle(|known| privileged_program(&mut memory, known, &around));
    assert_eq!(program, (SETUP.to_owned(), true));

    // It ran, and left the host no better off.
    let (outcome, _) = bare.settle(|known| {
        helper_finished(&mut memory, known, &around, SETUP, true, Exit::Ended(Some(0)))
    });
    assert_eq!(outcome, HelperOutcome::Applied);
    assert!(memory.setup_ineffective);
    let (program, _) = bare.settle(|known| privileged_program(&mut memory, known, &around));
    assert_eq!(program, (BUNDLED.to_owned(), false));

    // A host that is ready uses its own helper, and an override beats both.
    let ready = Host {
        yes: vec![
            (x, HELPER_CANDIDATES[1]),
            (Test::HostFile, RULE_CANDIDATES[0]),
        ],
        version: current(),
    };
    let mut memory = HostMemory::fresh();
    let (program, _) = ready.settle(|known| privileged_program(&mut memory, known, &around));
    assert_eq!(program, (HELPER_CANDIDATES[1].to_owned(), false));
    assert_eq!(memory.helper.as_deref(), Some(HELPER_CANDIDATES[1]));

    let overridden = Surroundings {
        helper_override: Some("/tmp/helper".to_owned()),
        ..sandboxed()
    };
    let (program, asked) = bare.settle(|known| {
        privileged_program(&mut HostMemory::fresh(), known, &overridden)
    });
    assert_eq!(program, ("/tmp/helper".to_owned(), false));
    assert_eq!(asked, 0);
}

#[test]
fn outside_a_flatpak_the_first_helper_that_exists_is_run() {
    let path = |yes: Vec<(Test, &'static str)>| {
        Host { yes, version: None }
            .settle(|known| helper_path(&mut HostMemory::fresh(), known, &unsandboxed()))
            .0
    };
    assert_eq!(
        path(vec![(Test::LocalExists, HELPER_CANDIDATES[1])]),
        HELPER_CANDIDATES[1]
    );
    assert_eq!(path(vec![]), HELPER_CANDIDATES[0]);
}

#[test]
fn a_missing_host_helper_is_named_by_where_it_would_be() {
    let bare = Host {
        yes: vec![],
        version: None,
    };
    let (path, _) = bare.settle(|known| helper_path(&mut HostMemory::fresh(), known, &sandboxed()));
    assert_eq!(path, SETUP_INSTALLS_TO);
}

#[test]
fn commands_go_through_pkexec_and_out_of_the_sandbox() {
    let args = apply_args(Some(3500), "0.800");
    assert_eq!(args, ["--temp", "3500", "--brightness", "0.800"]);
    assert_eq!(apply_args(None, "0.800"), ["--off"]);

    let command = run_helper(&sandboxed(), "/helper", &args);
    assert_eq!(command.program, "flatpak-spawn");
    assert_eq!(
        command.args,
        [
            "--host",
            "pkexec",
            "/helper",
            "--temp",
            "3500",
            "--brightness",
            "0.800",
            "--session-vt",
            "2"
        ]
    );
    let command = run_helper(&unsandboxed(), "/helper", &apply_args(None, ""));
    assert_eq!(command.program, "pkexec");
    assert_eq!(command.args, ["/helper", "--off"]);
    assert_eq!(session_vt_args(&Some(String::new())).len(), 0);
    assert_eq!(
        session_vt_args(&Some("3".to_owned())),
        ["--session-vt", "3"]
    );
}

#[test]
fn questions_are_put_to_the_host_by_flag() {
    let args = |test| host_test(&Question::Test(test, "/p".to_owned()));
    assert_eq!(
        args(Test::HostExecutable).as_deref(),
        Some(&["--host", "test", "-x", "/p"].map(str::to_owned)[..])
    );
    assert_eq!(
        args(Test::HostFile).as_deref(),
        Some(&["--host", "test", "-f", "/p"].map(str::to_owned)[..])
    );
    assert_eq!(
        args(Test::HostDirectory).as_deref(),
        Some(&["--host", "test", "-d", "/p"].map(str::to_owned)[..])
    );
    assert_eq!(args(Test::LocalExists), None);
    assert_eq!(
        host_test(&Question::Version("/p".to_owned())).as_deref(),
        Some(&["--host", "/p", "--version"].map(str::to_owned)[..])
    );
}

#[test]
fn exits_are_read_as_refusals_or_faults() {
    let x = Test::HostExecutable;
    let outcome = |host: &Host, exit| {
        let mut memory = HostMemory {
            helper: Some("/helper".to_owned()),
            setup_ready: true,
            setup_ineffective: false,
        };
        let around = sandboxed();
        let (outcome, _) = host.settle(|known| {
            helper_finished(&mut memory, known, &around, "/helper", false, exit)
        });
        (outcome, memory.helper.is_some())
    };
    let gone = Host {
        yes: vec![],
        version: None,
    };
    let there = Host {
        yes: vec![(x, "/helper")],
        version: None,
    };
    assert_eq!(
        outcome(&gone, Exit::Ended(Some(0))),
        (HelperOutcome::Applied, true)
    );
    assert_eq!(
        outcome(&gone, Exit::Ended(Some(PKEXEC_DISMISSED))),
        (HelperOutcome::Failed(Failure::Auth), false)
    );
    assert_eq!(
        outcome(&there, Exit::Ended(Some(PKEXEC_NOT_AUTHORIZED))),
        (HelperOutcome::Failed(Failure::Auth), false)
    );
    assert_eq!(
        outcome(&gone, Exit::Ended(Some(PKEXEC_NOT_AUTHORIZED))),
        (HelperOutcome::Failed(Failure::Other), false)
    );
    assert_eq!(
        outcome(&there, Exit::Ended(Some(1))),
        (HelperOutcome::Failed(Failure::Other), false)
    );
    assert_eq!(
        outcome(&there, Exit::Ended(None)),
        (HelperOutcome::Failed(Failure::Other), false)
    );
    assert_eq!(
        outcome(&there, Exit::NotLaunched),
        (HelperOutcome::Failed(Failure::Other), false)
    );
}

#[test]
fn programs_are_looked_for_where_they_would_run() {
    let host = Host {
        yes: vec![
            (Test::HostExecutable, "/on/host"),
            (Test::LocalExists, "/here"),
        ],
        version: None,
    };
    let there = |in_flatpak, path| host.settle(|known| program_exists(known, in_flatpak, path)).0;
    assert!(there(true, "/on/host"));
    assert!(!there(true, "/here"));
    assert!(there(false, "/here"));
    assert!(!there(false, "/on/host"));
}
