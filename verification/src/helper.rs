//! Running the privileged helper: what it is told, how it is launched, and what
//! its exit means.

use crate::backoff::Failure;
use crate::host::{
    a_finished_probe_is_right, agrees, forget_host_helper, forgotten, host_setup, host_setup_step,
    probing_ends, program_exists, program_known, session_vt_args, setup_on, setup_questions,
    vt_arguments, HostMemory, HostMemoryView, HostSetup, HostView, Known, KnownView, Probe,
    ProbeView, QuestionView, Surroundings, SurroundingsView, Test,
};
use crate::record::TintState;
use crate::text::{decimal, decimal_text, string_views};
use vstd::prelude::*;

verus! {

/// pkexec's exit code for "the user dismissed the authentication dialog".
pub const PKEXEC_DISMISSED: i32 = 126;

/// pkexec's exit code for "not authorized, authentication failed, or an error
/// occurred", which lumps polkit turning the user down together with pkexec
/// being unable to run the program at all. Neither code can come from our own
/// programs, which exit 0 or 1.
pub const PKEXEC_NOT_AUTHORIZED: i32 = 127;

/// What the helper is told in order to show a state.
pub open spec fn helper_arguments(state: TintState, brightness: Seq<char>) -> Seq<Seq<char>> {
    match state {
        Some(kelvin) => seq!["--temp"@, decimal(kelvin as nat), "--brightness"@, brightness],
        None => seq!["--off"@],
    }
}

/// What the helper is told in order to show `state` at a brightness, which is
/// written out as a decimal fraction.
pub fn apply_args(state: TintState, brightness: &str) -> (args: Vec<String>)
    ensures
        string_views(args@) == helper_arguments(state, brightness@),
{
    let mut args: Vec<String> = Vec::new();
    match state {
        Some(kelvin) => {
            args.push("--temp".to_owned());
            args.push(decimal_text(kelvin as u64));
            args.push("--brightness".to_owned());
            args.push(brightness.to_owned());
        },
        None => {
            args.push("--off".to_owned());
        },
    }
    assert(string_views(args@) =~= helper_arguments(state, brightness@));
    args
}

/// A program and its arguments.
#[derive(Debug)]
pub struct CommandLine {
    pub program: String,
    pub args: Vec<String>,
}

/// The program that launches a privileged call.
pub open spec fn launcher(in_flatpak: bool) -> Seq<char> {
    if in_flatpak {
        "flatpak-spawn"@
    } else {
        "pkexec"@
    }
}

/// The arguments that have `program` run with privilege: what to run, what it is
/// told, and the session's virtual terminal, all of it sent to the host from
/// inside a flatpak.
pub open spec fn launch_arguments(
    around: SurroundingsView,
    program: Seq<char>,
    args: Seq<Seq<char>>,
) -> Seq<Seq<char>> {
    (if around.in_flatpak {
        seq!["--host"@, "pkexec"@]
    } else {
        seq![]
    }) + seq![program] + args + vt_arguments(around.session_vt)
}

/// Moves every text of `more` to the end of `list`.
fn extend(list: &mut Vec<String>, more: &Vec<String>)
    ensures
        string_views(final(list)@) == string_views(old(list)@) + string_views(more@),
{
    let ghost before = string_views(list@);
    assert(before + string_views(more@).take(0) =~= before);
    for i in 0..more.len()
        invariant
            string_views(list@) == before + string_views(more@).take(i as int),
    {
        let ghost so_far = list@;
        list.push(more[i].as_str().to_owned());
        assert(string_views(list@) =~= string_views(so_far).push(more@[i as int]@));
        assert(string_views(more@).take(i + 1) =~= string_views(more@).take(i as int).push(
            more@[i as int]@,
        ));
        assert(before + string_views(more@).take(i as int).push(more@[i as int]@) =~= (before
            + string_views(more@).take(i as int)).push(more@[i as int]@));
    }
    assert(string_views(more@).take(more.len() as int) =~= string_views(more@));
}

/// How the helper is launched: through `pkexec`, and from inside a flatpak
/// through `flatpak-spawn --host` as well, so that both run on the host.
pub fn run_helper(around: &Surroundings, program: &str, args: &Vec<String>) -> (command: CommandLine)
    ensures
        command.program@ == launcher(around.in_flatpak),
        string_views(command.args@) == launch_arguments(around@, program@, string_views(args@)),
{
    let mut line: Vec<String> = Vec::new();
    if around.in_flatpak {
        line.push("--host".to_owned());
        line.push("pkexec".to_owned());
    }
    let ghost prefix = string_views(line@);
    line.push(program.to_owned());
    assert(string_views(line@) =~= prefix + seq![program@]);
    assert(prefix =~= if around.in_flatpak {
        seq!["--host"@, "pkexec"@]
    } else {
        seq![]
    });
    extend(&mut line, args);
    let vt = session_vt_args(&around.session_vt);
    extend(&mut line, &vt);
    let program = if around.in_flatpak {
        "flatpak-spawn".to_owned()
    } else {
        "pkexec".to_owned()
    };
    CommandLine { program, args: line }
}

/// How a launched command ended.
#[derive(Clone, Copy, Debug, PartialEq, Eq, Structural)]
pub enum Exit {
    /// It could not be launched at all.
    NotLaunched,
    /// It ended, with an exit code unless a signal ended it.
    Ended(Option<i32>),
}

/// What came of running the helper.
#[derive(Clone, Copy, Debug, PartialEq, Eq, Structural)]
pub enum HelperOutcome {
    Applied,
    Failed(Failure),
}

impl View for HelperOutcome {
    type V = HelperOutcome;

    open spec fn view(&self) -> HelperOutcome {
        *self
    }
}

/// What came of running `program`, and what is remembered about the host
/// afterwards.
///
/// After a success of the setup program the host is looked at afresh; if it is
/// still not ready, the setup cannot install here. After a failure the host is
/// forgotten, and the exit code says whether a person said no. pkexec's "not
/// authorized" means that only if the program is still there.
pub open spec fn helper_result(
    memory: HostMemoryView,
    known: KnownView,
    around: SurroundingsView,
    program: Seq<char>,
    installs: bool,
    exit: Exit,
) -> (ProbeView<HelperOutcome>, HostMemoryView) {
    if exit == Exit::Ended(Some(0)) {
        if installs {
            let (setup, after) = host_setup_step(
                forgotten(memory),
                known,
                around.in_flatpak,
                around.flatpak_info,
            );
            match setup {
                ProbeView::Ask(question) => (ProbeView::Ask(question), after),
                ProbeView::Done(state) => (
                    ProbeView::Done(HelperOutcome::Applied),
                    if state != HostSetup::Ready {
                        HostMemoryView { setup_ineffective: true, ..after }
                    } else {
                        after
                    },
                ),
            }
        } else {
            (ProbeView::Done(HelperOutcome::Applied), memory)
        }
    } else {
        let outcome = if exit == Exit::Ended(Some(PKEXEC_DISMISSED)) {
            ProbeView::Done(HelperOutcome::Failed(Failure::Auth))
        } else if exit == Exit::Ended(Some(PKEXEC_NOT_AUTHORIZED)) {
            match program_known(known, around.in_flatpak, program) {
                ProbeView::Ask(question) => ProbeView::Ask(question),
                ProbeView::Done(there) => ProbeView::Done(
                    HelperOutcome::Failed(
                        if there {
                            Failure::Auth
                        } else {
                            Failure::Other
                        },
                    ),
                ),
            }
        } else {
            ProbeView::Done(HelperOutcome::Failed(Failure::Other))
        };
        (outcome, forgotten(memory))
    }
}

/// Works out what came of running `program`; see [`helper_result`]. The answers
/// in `known` must date from after it ended.
pub fn helper_finished(
    memory: &mut HostMemory,
    known: &Known,
    around: &Surroundings,
    program: &str,
    installs: bool,
    exit: Exit,
) -> (outcome: Probe<HelperOutcome>)
    ensures
        (outcome@, final(memory)@) == helper_result(
            old(memory)@,
            known@,
            around@,
            program@,
            installs,
            exit,
        ),
{
    let code: Option<i32> = match exit {
        Exit::NotLaunched => None,
        Exit::Ended(code) => code,
    };
    match code {
        Some(0) => {
            if installs {
                // The host just changed under us: there should now be a
                // whitelisted helper. Unless there isn't, since the setup
                // installs best-effort and forwards the change either way.
                forget_host_helper(memory);
                match host_setup(memory, known, around.in_flatpak, &around.flatpak_info) {
                    Probe::Ask(question) => {
                        return Probe::Ask(question);
                    },
                    Probe::Done(state) => {
                        if state != HostSetup::Ready {
                            memory.setup_ineffective = true;
                        }
                    },
                }
            }
            Probe::Done(HelperOutcome::Applied)
        },
        _ => {
            forget_host_helper(memory);
            match code {
                Some(PKEXEC_DISMISSED) => Probe::Done(HelperOutcome::Failed(Failure::Auth)),
                Some(PKEXEC_NOT_AUTHORIZED) => match program_exists(
                    known,
                    around.in_flatpak,
                    program,
                ) {
                    Probe::Ask(question) => Probe::Ask(question),
                    Probe::Done(there) => if there {
                        Probe::Done(HelperOutcome::Failed(Failure::Auth))
                    } else {
                        Probe::Done(HelperOutcome::Failed(Failure::Other))
                    },
                },
                _ => Probe::Done(HelperOutcome::Failed(Failure::Other)),
            }
        },
    }
}

/// **Law.** Nothing about the host outlives a failure: the next call resolves
/// the helper from scratch.
pub proof fn a_failure_forgets_the_host(
    memory: HostMemoryView,
    known: KnownView,
    around: SurroundingsView,
    program: Seq<char>,
    installs: bool,
    exit: Exit,
)
    requires
        exit != Exit::Ended(Some(0)),
    ensures
        helper_result(memory, known, around, program, installs, exit).1 == forgotten(memory),
        !(helper_result(memory, known, around, program, installs, exit).0 == ProbeView::Done(
            HelperOutcome::Applied,
        )),
{
}

/// **Law.** A setup that ran and left the host no better off is not run again:
/// the next privileged call goes to a helper.
pub proof fn an_ineffective_setup_is_not_run_again(
    memory: HostMemoryView,
    known: KnownView,
    around: SurroundingsView,
    program: Seq<char>,
    later: KnownView,
)
    requires
        setup_after(memory, known, around) is Done,
        setup_after(memory, known, around) != ProbeView::Done(HostSetup::Ready),
    ensures
        ({
            let after = helper_result(
                memory,
                known,
                around,
                program,
                true,
                Exit::Ended(Some(0)),
            ).1;
            let next = crate::host::program_step(after, later, around).0;
            next is Done ==> !(next->Done_0).1
        }),
{
}

/// What the host turns out to need once a setup program has run.
pub open spec fn setup_after(
    memory: HostMemoryView,
    known: KnownView,
    around: SurroundingsView,
) -> ProbeView<HostSetup> {
    host_setup_step(forgotten(memory), known, around.in_flatpak, around.flatpak_info).0
}

/// **Law.** Only a person can refuse: a launch that failed, a signal, or any
/// exit code but pkexec's own two is a fault, and so is "not authorized" about a
/// program that has gone.
pub proof fn only_a_person_can_refuse(
    memory: HostMemoryView,
    known: KnownView,
    around: SurroundingsView,
    program: Seq<char>,
    installs: bool,
    exit: Exit,
)
    ensures
        helper_result(memory, known, around, program, installs, exit).0 == ProbeView::Done(
            HelperOutcome::Failed(Failure::Auth),
        ) <==> exit == Exit::Ended(Some(PKEXEC_DISMISSED)) || (exit == Exit::Ended(
            Some(PKEXEC_NOT_AUTHORIZED),
        ) && program_known(known, around.in_flatpak, program) == ProbeView::Done(true)),
{
}

/// **Law.** What came of the helper is read rightly, for every host that agrees
/// with what is known: a success is one whatever the host, a refusal is told from
/// a program that has gone by whether it is there, and the setup is found
/// ineffective exactly if it left the host not ready.
pub proof fn an_outcome_is_read_rightly(
    memory: HostMemoryView,
    known: KnownView,
    host: HostView,
    around: SurroundingsView,
    program: Seq<char>,
    installs: bool,
    exit: Exit,
)
    requires
        agrees(known, host),
        helper_result(memory, known, around, program, installs, exit).0 is Done,
    ensures
        ({
            let (outcome, after) = helper_result(memory, known, around, program, installs, exit);
            let test = if around.in_flatpak {
                Test::HostExecutable
            } else {
                Test::LocalExists
            };
            let failure = if exit == Exit::Ended(Some(PKEXEC_DISMISSED)) || (exit == Exit::Ended(
                Some(PKEXEC_NOT_AUTHORIZED),
            ) && (host.test)(test, program)) {
                Failure::Auth
            } else {
                Failure::Other
            };
            let ready = setup_on(host, around.in_flatpak, around.flatpak_info) == HostSetup::Ready;
            &&& outcome == ProbeView::Done(
                if exit == Exit::Ended(Some(0)) {
                    HelperOutcome::Applied
                } else {
                    HelperOutcome::Failed(failure)
                },
            )
            &&& after.setup_ineffective == (memory.setup_ineffective || (exit == Exit::Ended(
                Some(0),
            ) && installs && !ready))
        }),
{
    a_finished_probe_is_right(known, host, around.in_flatpak, around.flatpak_info, None);
}

/// **Law.** Reading an outcome ends: every question it asks is about the program
/// itself or one the setup probe asks, and none that has been answered is asked.
pub proof fn reading_an_outcome_ends(
    memory: HostMemoryView,
    known: KnownView,
    around: SurroundingsView,
    program: Seq<char>,
    installs: bool,
    exit: Exit,
)
    ensures
        helper_result(memory, known, around, program, installs, exit).0 matches ProbeView::Ask(
            question,
        ) ==> !known.answers(question) && (setup_questions(around.flatpak_info).contains(question)
            || question == QuestionView::Test(
            if around.in_flatpak {
                Test::HostExecutable
            } else {
                Test::LocalExists
            },
            program,
        )),
{
    probing_ends(known, around.in_flatpak, around.flatpak_info);
}

} // verus!
