//! What runs with privilege: finding it, launching it, and reading its exit.

use crate::backoff::Failure;
use crate::brightness::Brightness;
use crate::engine::{
    apply, is_root, leading_digits, parse_contract, reset, version_line, GammaWrite, KelvinRange,
};
use crate::helper::{
    apply_args, helper_finished, run_helper, CommandLine, Exit, HelperOutcome,
};
use crate::host::{
    bundled_host_path, counts_as_installed, directory_of,
    forget_host_helper, helper_path, host_has_polkit_rule, host_helper_contract, host_helper_path,     host_setup, host_test, last_slash, privileged_program, probe_host_helper, probe_host_setup,
    probe_rule, program_exists, session_vt_args, without_tail, HostHelper, HostHelperView,
    HostMemory, HostSetup, Known, Probe, ProbeView, Question, QuestionView, RuleProbe,
    Surroundings, Test, };
use crate::laws::place::{first_after, lemma_first_after, lemma_first_line, without};
use crate::record::TintState;
use crate::scan::{lines, without_prefix};
use crate::text::{
    all_digits, decimal, decimal_value, is_digit, optional_view, string_views, trim,
};
use vstd::prelude::*;

verus! {

/// The helper's two paths on the host.
pub open spec fn packaged() -> Seq<char> {
    "/usr/bin/cosmic-nightlight-helper"@
}

pub open spec fn set_up() -> Seq<char> {
    "/usr/local/bin/cosmic-nightlight-helper"@
}

// ---------------------------------------------------------------------------
// Answers
// ---------------------------------------------------------------------------
/// **Law.** An answer that was noted is the one that is known from then on, unless
/// there was one before; what is known about anything else stays as it was.
pub proof fn a_noted_answer_is_known(
    known: &mut Known,
    test: Test,
    path: String,
    yes: bool,
    asked: Test,
    place: &str,
    before: Option<bool>,
    after: Option<bool>,
)
    requires
        call_ensures(Known::learn_test, (known, test, path, yes), ()),
        call_ensures(Known::tested, (&*old(known), asked, place), before),
        call_ensures(Known::tested, (&*final(known), asked, place), after),
    ensures
        before is Some ==> after == before,
        before is None && asked == test && place@ == path@ ==> after == Some(yes),
        before is None && !(asked == test && place@ == path@) ==> after is None,
{
    assert((final(known)@.test)(asked, place@) == after);
}

/// **Law.** Nothing is known to begin with, and what a helper printed is known once
/// it was noted, unless it was before.
pub proof fn a_noted_version_is_known(
    nothing: Known,
    known: &mut Known,
    path: String,
    output: Option<String>,
    place: Seq<char>,
    test: Test,
)
    requires
        call_ensures(Known::nothing, (), nothing),
        call_ensures(Known::learn_version, (known, path, output), ()),
    ensures
        (nothing@.test)(test, place) is None,
        (nothing@.version)(place) is None,
        (old(known)@.version)(place) is Some ==> (final(known)@.version)(place) == (
        old(known)@.version)(place),
        (old(known)@.version)(place) is None && place == path@ ==> (final(known)@.version)(place)
            == Some(optional_view(output)),
        (old(known)@.version)(place) is None && place != path@ ==> (final(known)@.version)(
            place,
        ) is None,
        (final(known)@.test)(test, place) == (old(known)@.test)(test, place),
{
    assert(!nothing@.answers(QuestionView::Test(test, place)));
    assert(!nothing@.answers(QuestionView::Version(place)));
}

/// **Law.** A question goes to the host as the flag of `test` it stands for, or as
/// a helper asked for its version; whether something exists here is not the
/// host's to say.
pub proof fn a_question_is_put_by_its_flag(question: Question, args: Option<Vec<String>>)
    requires
        call_ensures(host_test, (&question,), args),
    ensures
        question matches Question::Test(test, path) ==> {
            &&& args is None <==> test == Test::LocalExists
            &&& args matches Some(list) ==> string_views(list@) == seq![
                "--host"@,
                "test"@,
                match test {
                    Test::HostExecutable => "-x"@,
                    Test::HostFile => "-f"@,
                    _ => "-d"@,
                },
                path@,
            ]
        },
        question matches Question::Version(path) ==> (args matches Some(list) && string_views(list@)
            == seq!["--host"@, path@, "--version"@]),
{
}

// ---------------------------------------------------------------------------
// The helper
// ---------------------------------------------------------------------------
/// **Law.** The packaged helper comes before the one the setup installs, and
/// either before the flatpak's own copy, which is used only where neither can be
/// run. Each is asked about only when it has come to it.
pub proof fn a_host_helper_comes_before_the_bundled_one(
    known: Known,
    bundled: Option<String>,
    probe: Probe<HostHelper>,
)
    requires
        call_ensures(probe_host_helper, (&known, &bundled), probe),
    ensures
        ({
            let runs = |path: Seq<char>| (known@.test)(Test::HostExecutable, path);
            let none = runs(packaged()) == Some(false) && runs(set_up()) == Some(false);
            &&& runs(packaged()) == Some(true) ==> probe@ == ProbeView::Done(
                HostHelperView::Whitelisted(packaged()),
            )
            &&& runs(packaged()) == Some(false) && runs(set_up()) == Some(true) ==> probe@
                == ProbeView::Done(HostHelperView::Whitelisted(set_up()))
            &&& none && bundled is None ==> probe@ == ProbeView::<HostHelperView>::Done(
                HostHelperView::Missing,
            )
            &&& none && bundled is Some && runs((bundled->0)@) == Some(true) ==> probe@
                == ProbeView::Done(HostHelperView::Bundled((bundled->0)@))
            &&& none && bundled is Some && runs((bundled->0)@) == Some(false) ==> probe@
                == ProbeView::<HostHelperView>::Done(HostHelperView::Missing)
            &&& runs(packaged()) is None ==> probe@ == ProbeView::<HostHelperView>::Ask(
                QuestionView::Test(Test::HostExecutable, packaged()),
            )
            &&& runs(packaged()) == Some(false) && runs(set_up()) is None ==> probe@
                == ProbeView::<HostHelperView>::Ask(
                QuestionView::Test(Test::HostExecutable, set_up()),
            )
            &&& none && bundled is Some && runs((bundled->0)@) is None ==> probe@
                == ProbeView::<HostHelperView>::Ask(
                QuestionView::Test(Test::HostExecutable, (bundled->0)@),
            )
        }),
{
    reveal_with_fuel(crate::host::candidate_known, 3);
}

/// **Law.** The flatpak's own programs are found by the first line that says where
/// the app is: a line that does not say it is passed over.
pub proof fn the_bundled_programs_are_where_the_app_is(
    line: Seq<char>,
    rest: Seq<char>,
    app: Seq<char>,
    info: Option<String>,
    later: Option<String>,
    program: &str,
    path: Option<String>,
    beyond: Option<String>,
)
    requires
        call_ensures(bundled_host_path, (&info, program), path),
        call_ensures(bundled_host_path, (&later, program), beyond),
        info is Some,
        (info->0)@ == line + seq!['\n'] + rest,
        later is Some,
        (later->0)@ == rest,
        without(line, '\n') && without(line, '\r'),
    ensures
        trim(line) == "app-path="@ + app ==> (path matches Some(p) && p@ == app + "/libexec/"@
            + program@),
        without_prefix(trim(line), "app-path="@) is None ==> optional_view(path) == optional_view(
            beyond,
        ),
{
    lemma_first_line(line, rest);
    let all = lines((info->0)@);
    assert(all[0] == line);
    assert(all.skip(1) =~= lines(rest));
    if trim(line) == "app-path="@ + app {
        assert((("app-path="@ + app)).take("app-path="@.len() as int) =~= "app-path="@);
        assert((("app-path="@ + app)).skip("app-path="@.len() as int) =~= app);
    }
}

/// **Law.** Without the flatpak's own description, or with an empty one, nothing
/// is known to be bundled.
pub proof fn nothing_is_bundled_outside_a_flatpak(
    info: Option<String>,
    program: &str,
    path: Option<String>,
)
    requires
        call_ensures(bundled_host_path, (&info, program), path),
        info is None || (info->0)@.len() == 0,
    ensures
        path is None,
{
}

// ---------------------------------------------------------------------------
// The rule
// ---------------------------------------------------------------------------
proof fn lemma_last_slash_is(path: Seq<char>, at: int)
    requires
        0 <= at < path.len(),
        path[at] == '/',
        forall|i: int| at < i < path.len() ==> #[trigger] path[i] != '/',
    ensures
        last_slash(path) == at,
    decreases path.len(),
{
    if path.last() != '/' {
        assert forall|i: int| at < i < path.drop_last().len() implies #[trigger] path.drop_last()[i]
            != '/' by {
            assert(path.drop_last()[i] == path[i]);
        }
        assert(path.drop_last()[at] == path[at]);
        lemma_last_slash_is(path.drop_last(), at);
    }
}

/// **Law.** The directory of a file is the path in front of its name.
pub proof fn the_directory_is_in_front_of_the_name(
    path: &str,
    dir: Seq<char>,
    name: Seq<char>,
    found: Option<String>,
)
    requires
        call_ensures(directory_of, (path,), found),
        path@ == dir + seq!['/'] + name,
        dir.len() > 0,
        dir.last() != '/' && dir.last() != '.',
        name.len() > 0,
        name.last() != '.',
        without(name, '/'),
    ensures
        found is Some,
        (found->0)@ == dir,
{
    let whole = path@;
    let at = dir.len() as int;
    let n = whole.len() as int;
    assert(whole[n - 1] == name.last());
    assert(whole[n - 1] != '/');
    assert(without_tail(whole) == whole);
    assert(whole != seq!['/']);
    assert forall|i: int| at < i < whole.len() implies #[trigger] whole[i] != '/' by {
        assert(whole[i] == name[i - at - 1]);
    }
    lemma_last_slash_is(whole, at);
    let with = whole.take(at + 1);
    assert(with.drop_last() =~= dir);
    assert(with[at] == '/');
    reveal_with_fuel(without_tail, 2);
    assert(without_tail(dir) == dir);
    assert(without_tail(with) == dir);
}

/// **Law.** A rule is there if its file is; it cannot be seen if its directory is
/// there and closed to us; otherwise it is not there. One that is there or cannot
/// be seen counts as installed.
pub proof fn a_rule_is_there_closed_off_or_missing(
    known: Known,
    path: &str,
    probe: Probe<RuleProbe>,
    dir: Option<String>,
    found: RuleProbe,
    installed: bool,
)
    requires
        call_ensures(probe_rule, (&known, path), probe),
        call_ensures(directory_of, (path,), dir),
        call_ensures(counts_as_installed, (found,), installed),
    ensures
        ({
            let file = (known@.test)(Test::HostFile, path@);
            let place = (known@.test)(Test::HostDirectory, (dir->0)@);
            let open = (known@.test)(Test::HostExecutable, (dir->0)@);
            &&& file == Some(true) ==> probe@ == ProbeView::Done(RuleProbe::Present)
            &&& file == Some(false) && dir is None ==> probe@ == ProbeView::Done(RuleProbe::Absent)
            &&& file == Some(false) && dir is Some && place == Some(false) ==> probe@
                == ProbeView::Done(RuleProbe::Absent)
            &&& file == Some(false) && dir is Some && place == Some(true) && open == Some(true)
                ==> probe@ == ProbeView::Done(RuleProbe::Absent)
            &&& file == Some(false) && dir is Some && place == Some(true) && open == Some(false)
                ==> probe@ == ProbeView::Done(RuleProbe::Unreadable)
            &&& file is None ==> probe@ == ProbeView::<RuleProbe>::Ask(
                QuestionView::Test(Test::HostFile, path@),
            )
            &&& file == Some(false) && dir is Some && place is None ==> probe@ == ProbeView::<
                RuleProbe,
            >::Ask(QuestionView::Test(Test::HostDirectory, (dir->0)@))
            &&& file == Some(false) && dir is Some && place == Some(true) && open is None ==> probe@
                == ProbeView::<RuleProbe>::Ask(
                QuestionView::Test(Test::HostExecutable, (dir->0)@),
            )
        }),
        installed <==> found == RuleProbe::Present || found == RuleProbe::Unreadable,
{
}

/// **Law.** The rule counts as installed if it does at either of its two places.
pub proof fn either_place_will_do_for_the_rule(
    known: Known,
    first: Probe<RuleProbe>,
    second: Probe<RuleProbe>,
    rule: Probe<bool>,
)
    requires
        call_ensures(host_has_polkit_rule, (&known,), rule),
        call_ensures(
            probe_rule,
            (&known, "/etc/polkit-1/rules.d/49-cosmic-nightlight.rules"),
            first,
        ),
        call_ensures(
            probe_rule,
            (&known, "/usr/share/polkit-1/rules.d/49-cosmic-nightlight.rules"),
            second,
        ),
    ensures
        first matches Probe::Done(found) ==> found != RuleProbe::Absent ==> rule@
            == ProbeView::Done(true),
        first matches Probe::Done(found) ==> found == RuleProbe::Absent ==> {
            &&& second matches Probe::Done(other) ==> rule@ == ProbeView::Done(
                other != RuleProbe::Absent,
            )
            &&& second matches Probe::Ask(question) ==> rule@ == ProbeView::<bool>::Ask(question@)
        },
        first matches Probe::Ask(question) ==> rule@ == ProbeView::<bool>::Ask(question@),
{
    reveal_with_fuel(crate::host::any_rule_known, 3);
}

// ---------------------------------------------------------------------------
// The setup
// ---------------------------------------------------------------------------
/// **Law.** The host is ready outside a flatpak; inside one exactly if a helper
/// can be run at one of its two paths, the rule counts as installed, and that
/// helper names a contract no older than ours. Without the helper or the rule the
/// setup is needed; with a helper that names an older contract, or none, it is
/// outdated.
pub proof fn the_host_is_ready_with_a_helper_a_rule_and_a_contract(
    known: Known,
    in_flatpak: bool,
    info: Option<String>,
    bundled: Option<String>,
    helper: Probe<HostHelper>,
    rule: Probe<bool>,
    setup: Probe<HostSetup>,
)
    requires
        call_ensures(probe_host_setup, (&known, in_flatpak, &info), setup),
        call_ensures(bundled_host_path, (&info, "cosmic-nightlight-helper"), bundled),
        call_ensures(probe_host_helper, (&known, &bundled), helper),
        call_ensures(host_has_polkit_rule, (&known,), rule),
    ensures
        !in_flatpak ==> setup@ == ProbeView::Done(HostSetup::Ready),
        in_flatpak && helper is Ask ==> setup@ == ProbeView::<HostSetup>::Ask(
            (helper->Ask_0)@,
        ),
        in_flatpak && helper is Done && !(helper->Done_0 is Whitelisted) ==> setup@
            == ProbeView::Done(HostSetup::Needed),
        in_flatpak && helper is Done && helper->Done_0 is Whitelisted ==> {
            let path = (helper->Done_0->Whitelisted_0)@;
            let printed = (known@.version)(path);
            &&& rule is Ask ==> setup@ == ProbeView::<HostSetup>::Ask((rule->Ask_0)@)
            &&& rule is Done && !rule->Done_0 ==> setup@ == ProbeView::Done(HostSetup::Needed)
            &&& rule is Done && rule->Done_0 && printed is None ==> setup@ == ProbeView::<
                HostSetup,
            >::Ask(QuestionView::Version(path))
            &&& rule is Done && rule->Done_0 && printed is Some ==> setup@ == ProbeView::Done(
                if printed->0 is Some && crate::engine::contract_in(printed->0->0) is Some
                    && crate::engine::contract_in(printed->0->0)->0 >= 1 {
                    HostSetup::Ready
                } else {
                    HostSetup::Outdated
                },
            )
        },
{
}

/// **Law.** A host once found ready is taken for ready until it is forgotten; any
/// other answer is what the host says now, and is not kept.
pub proof fn a_ready_host_is_kept_until_forgotten(
    memory: &mut HostMemory,
    known: Known,
    in_flatpak: bool,
    info: Option<String>,
    setup: Probe<HostSetup>,
    now: Probe<HostSetup>,
    other: &mut HostMemory,
)
    requires
        call_ensures(host_setup, (memory, &known, in_flatpak, &info), setup),
        call_ensures(probe_host_setup, (&known, in_flatpak, &info), now),
        call_ensures(forget_host_helper, (other,), ()),
    ensures
        old(memory).setup_ready ==> setup@ == ProbeView::Done(HostSetup::Ready),
        !old(memory).setup_ready ==> setup@ == now@,
        final(memory).setup_ready <==> setup@ == ProbeView::Done(HostSetup::Ready),
        final(memory)@.helper == old(memory)@.helper,
        final(memory).setup_ineffective == old(memory).setup_ineffective,
        !final(other).setup_ready,
        final(other).helper is None,
        final(other).setup_ineffective == old(other).setup_ineffective,
{
}

// ---------------------------------------------------------------------------
// What a call runs
// ---------------------------------------------------------------------------
/// **Law.** Outside a flatpak the helper is the first of the two that exists, or
/// the packaged one by name. Inside one it is what is remembered, else what the
/// host has, else the path the setup installs to; only a helper at one of the two
/// paths is remembered.
pub proof fn the_helper_is_the_first_there_is(
    memory: &mut HostMemory,
    known: Known,
    around: Surroundings,
    path: Probe<String>,
    bundled: Option<String>,
    found: Probe<HostHelper>,
)
    requires
        call_ensures(helper_path, (memory, &known, &around), path),
        call_ensures(
            bundled_host_path,
            (&around.flatpak_info, "cosmic-nightlight-helper"),
            bundled,
        ),
        call_ensures(probe_host_helper, (&known, &bundled), found),
    ensures
        ({
            let is_here = |p: Seq<char>| (known@.test)(Test::LocalExists, p);
            let remembered = old(memory)@.helper;
            &&& final(memory).setup_ready == old(memory).setup_ready
            &&& final(memory).setup_ineffective == old(memory).setup_ineffective
            &&& !around.in_flatpak ==> {
                &&& final(memory)@ == old(memory)@
                &&& is_here(packaged()) == Some(true) ==> path@ == ProbeView::Done(packaged())
                &&& is_here(packaged()) == Some(false) && is_here(set_up()) == Some(true) ==> path@
                    == ProbeView::Done(set_up())
                &&& is_here(packaged()) == Some(false) && is_here(set_up()) == Some(false) ==> path@
                    == ProbeView::Done(packaged())
            }
            &&& around.in_flatpak && remembered is Some ==> path@ == ProbeView::Done(
                remembered->0,
            ) && final(memory)@ == old(memory)@
            &&& around.in_flatpak && remembered is None ==> match found {
                Probe::Ask(question) => path@ == ProbeView::<Seq<char>>::Ask(question@)
                    && final(memory)@ == old(memory)@,
                Probe::Done(HostHelper::Whitelisted(p)) => path@ == ProbeView::Done(p@)
                    && final(memory)@.helper == Some(p@),
                Probe::Done(HostHelper::Bundled(p)) => path@ == ProbeView::Done(p@)
                    && final(memory)@ == old(memory)@,
                Probe::Done(HostHelper::Missing) => path@ == ProbeView::Done(set_up())
                    && final(memory)@ == old(memory)@,
            }
        }),
{
    reveal_with_fuel(crate::host::candidate_known, 3);
}

/// **Law.** A named helper is run as it is named. Otherwise a flatpak on a host
/// that is not ready runs its setup, unless that has proved ineffective or is not
/// there; everything else runs the helper. Only the setup installs.
pub proof fn a_call_runs_the_setup_or_the_helper(
    memory: &mut HostMemory,
    known: Known,
    around: Surroundings,
    program: Probe<(String, bool)>,
    looked: &mut HostMemory,
    setup: Probe<HostSetup>,
    installer: Option<String>,
)
    requires
        call_ensures(privileged_program, (memory, &known, &around), program),
        old(looked)@ == old(memory)@,
        call_ensures(
            host_setup,
            (looked, &known, around.in_flatpak, &around.flatpak_info),
            setup,
        ),
        call_ensures(
            bundled_host_path,
            (&around.flatpak_info, "cosmic-nightlight-setup"),
            installer,
        ),
    ensures
        ({
            let named = around.helper_override;
            let ready = setup@ == ProbeView::Done(HostSetup::Ready);
            &&& named is Some ==> program@ == ProbeView::Done(((named->0)@, false))
                && final(memory)@ == old(memory)@
            &&& named is None && around.in_flatpak && setup is Ask ==> program@ == ProbeView::<
                (Seq<char>, bool),
            >::Ask((setup->Ask_0)@)
            &&& named is None && around.in_flatpak && setup is Done && !ready
                && !old(memory).setup_ineffective && installer is Some ==> program@
                == ProbeView::Done(((installer->0)@, true))
            &&& program is Done && (program->Done_0).1 ==> named is None && around.in_flatpak
                && !ready && !old(memory).setup_ineffective && installer is Some
        }),
{
}

/// **Law.** Where a call does not run a named program or the setup, it runs the
/// helper, looked for with what the look at the setup left remembered.
pub proof fn a_call_falls_back_to_the_helper(
    memory: &mut HostMemory,
    known: Known,
    around: Surroundings,
    program: Probe<(String, bool)>,
    looked: &mut HostMemory,
    setup: Probe<HostSetup>,
    installer: Option<String>,
    resolved: &mut HostMemory,
    helper: Probe<String>,
)
    requires
        call_ensures(privileged_program, (memory, &known, &around), program),
        around.helper_override is None,
        around.in_flatpak,
        old(looked)@ == old(memory)@,
        call_ensures(host_setup, (looked, &known, true, &around.flatpak_info), setup),
        call_ensures(
            bundled_host_path,
            (&around.flatpak_info, "cosmic-nightlight-setup"),
            installer,
        ),
        setup is Done,
        setup@ == ProbeView::Done(HostSetup::Ready) || old(memory).setup_ineffective
            || installer is None,
        old(resolved)@ == final(looked)@,
        call_ensures(helper_path, (resolved, &known, &around), helper),
    ensures
        helper matches Probe::Done(path) ==> program@ == ProbeView::Done((path@, false)),
        helper matches Probe::Ask(question) ==> program@ == ProbeView::<(Seq<char>, bool)>::Ask(
            question@,
        ),
        final(memory)@ == final(resolved)@,
{
}

/// **Law.** Outside a flatpak a call that names no program runs the helper, and
/// never installs.
pub proof fn outside_a_flatpak_a_call_runs_the_helper(
    memory: &mut HostMemory,
    known: Known,
    around: Surroundings,
    program: Probe<(String, bool)>,
    resolved: &mut HostMemory,
    helper: Probe<String>,
)
    requires
        call_ensures(privileged_program, (memory, &known, &around), program),
        around.helper_override is None,
        !around.in_flatpak,
        old(resolved)@ == old(memory)@,
        call_ensures(helper_path, (resolved, &known, &around), helper),
    ensures
        helper matches Probe::Done(path) ==> program@ == ProbeView::Done((path@, false)),
        helper matches Probe::Ask(question) ==> program@ == ProbeView::<(Seq<char>, bool)>::Ask(
            question@,
        ),
        final(memory)@ == final(resolved)@,
{
}

/// **Law.** A program is looked for where it would be run.
pub proof fn a_program_is_looked_for_where_it_runs(
    known: Known,
    in_flatpak: bool,
    program: &str,
    there: Probe<bool>,
)
    requires
        call_ensures(program_exists, (&known, in_flatpak, program), there),
    ensures
        ({
            let test = if in_flatpak {
                Test::HostExecutable
            } else {
                Test::LocalExists
            };
            let answer = (known@.test)(test, program@);
            &&& answer matches Some(yes) ==> there@ == ProbeView::Done(yes)
            &&& answer is None ==> there@ == ProbeView::<bool>::Ask(
                QuestionView::Test(test, program@),
            )
        }),
{
}

// ---------------------------------------------------------------------------
// Running it
// ---------------------------------------------------------------------------
/// **Law.** The helper is told the temperature and the brightness to show, or to
/// turn off.
pub proof fn the_helper_is_told_what_to_show(
    state: TintState,
    brightness: &str,
    args: Vec<String>,
)
    requires
        call_ensures(apply_args, (state, brightness), args),
    ensures
        state is None ==> string_views(args@) == seq!["--off"@],
        state matches Some(kelvin) ==> {
            &&& args.len() == 4
            &&& args@[0]@ == "--temp"@
            &&& all_digits(args@[1]@) && decimal_value(args@[1]@) == kelvin
            &&& args@[2]@ == "--brightness"@
            &&& args@[3]@ == brightness@
        },
{
    if state is Some {
        let views = string_views(args@);
        assert(views.len() == 4);
        assert(views[0] == args@[0]@ && views[1] == args@[1]@ && views[2] == args@[2]@ && views[3]
            == args@[3]@);
        crate::text::lemma_decimal((state->0) as nat);
    }
}

/// **Law.** A privileged call goes through `pkexec`, out of the sandbox where there
/// is one, with the program, what it is told, and the session's terminal where that
/// is known.
pub proof fn a_call_goes_through_pkexec(
    around: Surroundings,
    program: &str,
    args: Vec<String>,
    command: CommandLine,
    vt: Vec<String>,
)
    requires
        call_ensures(run_helper, (&around, program, &args), command),
        call_ensures(session_vt_args, (&around.session_vt,), vt),
    ensures
        around.in_flatpak ==> command.program@ == "flatpak-spawn"@ && string_views(command.args@)
            == seq!["--host"@, "pkexec"@, program@] + string_views(args@) + string_views(vt@),
        !around.in_flatpak ==> command.program@ == "pkexec"@ && string_views(command.args@)
            == seq![program@] + string_views(args@) + string_views(vt@),
        around.session_vt is Some && (around.session_vt->0)@.len() > 0 ==> string_views(vt@)
            == seq!["--session-vt"@, (around.session_vt->0)@],
        around.session_vt is None || (around.session_vt->0)@.len() == 0 ==> vt.len() == 0,
{
    let listed = string_views(command.args@);
    let told = string_views(args@);
    let terminal = string_views(vt@);
    assert(terminal.len() == vt.len());
    if around.in_flatpak {
        assert(listed =~= seq!["--host"@, "pkexec"@, program@] + told + terminal);
    } else {
        assert(listed =~= seq![program@] + told + terminal);
    }
}

/// **Law.** An exit of zero is a success and nothing else is. A dismissed prompt is
/// a refusal, and so is an authorization that failed for a program that is there;
/// every other failure is a fault. After a failure nothing is remembered about the
/// host.
pub proof fn an_exit_is_a_success_a_refusal_or_a_fault(
    memory: &mut HostMemory,
    known: Known,
    around: Surroundings,
    program: &str,
    installs: bool,
    exit: Exit,
    outcome: Probe<HelperOutcome>,
    there: Probe<bool>,
)
    requires
        call_ensures(
            helper_finished,
            (memory, &known, &around, program, installs, exit),
            outcome,
        ),
        call_ensures(program_exists, (&known, around.in_flatpak, program), there),
    ensures
        exit == Exit::Ended(Some(0i32)) && !installs ==> outcome@ == ProbeView::Done(
            HelperOutcome::Applied,
        ) && final(memory)@ == old(memory)@,
        exit == Exit::Ended(Some(126i32)) ==> outcome@ == ProbeView::Done(
            HelperOutcome::Failed(Failure::Auth),
        ),
        exit == Exit::Ended(Some(127i32)) ==> match there {
            Probe::Ask(question) => outcome@ == ProbeView::<HelperOutcome>::Ask(question@),
            Probe::Done(yes) => outcome@ == ProbeView::Done(
                HelperOutcome::Failed(
                    if yes {
                        Failure::Auth
                    } else {
                        Failure::Other
                    },
                ),
            ),
        },
        exit != Exit::Ended(Some(0i32)) && exit != Exit::Ended(Some(126i32)) && exit != Exit::Ended(
            Some(127i32),
        ) ==> outcome@ == ProbeView::Done(HelperOutcome::Failed(Failure::Other)),
        exit != Exit::Ended(Some(0i32)) ==> final(memory).helper is None
            && !final(memory).setup_ready && final(memory).setup_ineffective
            == old(memory).setup_ineffective,
{
}

/// **Law.** A setup that ran is judged by the host it left: it is ineffective from
/// then on exactly if the host is still not ready, looked at afresh.
pub proof fn a_setup_is_judged_by_what_it_left(
    memory: &mut HostMemory,
    known: Known,
    around: Surroundings,
    program: &str,
    outcome: Probe<HelperOutcome>,
    setup: Probe<HostSetup>,
)
    requires
        call_ensures(
            helper_finished,
            (memory, &known, &around, program, true, Exit::Ended(Some(0i32))),
            outcome,
        ),
        call_ensures(
            probe_host_setup,
            (&known, around.in_flatpak, &around.flatpak_info),
            setup,
        ),
    ensures
        setup matches Probe::Ask(question) ==> outcome@ == ProbeView::<HelperOutcome>::Ask(
            question@,
        ),
        setup is Done ==> outcome@ == ProbeView::Done(HelperOutcome::Applied),
        final(memory).setup_ineffective <==> old(memory).setup_ineffective || (setup is Done
            && setup@ != ProbeView::Done(HostSetup::Ready)),
        final(memory).setup_ready <==> setup@ == ProbeView::Done(HostSetup::Ready),
        final(memory).helper is None,
{
}

// ---------------------------------------------------------------------------
// The helper's own side
// ---------------------------------------------------------------------------
/// **Law.** The ramps are asked for the temperature there is, brought into the
/// range they can show, with the brightness and the terminal as given; turning off
/// asks for a neutral temperature at full brightness. Only user zero is root.
pub proof fn the_ramps_show_what_they_can(
    kelvin: u32,
    brightness: Brightness,
    session_vt: Option<i32>,
    range: KelvinRange,
    write: GammaWrite,
    off: GammaWrite,
    neutral: GammaWrite,
    uid: u32,
    root: bool,
)
    requires
        range.min <= range.max,
        call_ensures(apply, (kelvin, brightness, session_vt, range), write),
        call_ensures(reset, (session_vt, range), off),
        call_ensures(
            apply,
            (6500u32, (Brightness { bits: 0x3ff0_0000_0000_0000u64 }), session_vt, range),
            neutral,
        ),
        call_ensures(is_root, (uid,), root),
    ensures
        range.min <= write.kelvin <= range.max,
        range.min <= kelvin <= range.max ==> write.kelvin == kelvin,
        kelvin < range.min ==> write.kelvin == range.min,
        kelvin > range.max ==> write.kelvin == range.max,
        write.brightness == brightness,
        write.session_vt == session_vt,
        off == neutral,
        root <==> uid == 0,
{
}

proof fn lemma_leading(s: Seq<char>, k: int)
    requires
        0 <= k <= s.len(),
        forall|i: int| 0 <= i < k ==> is_digit(#[trigger] s[i]),
        k < s.len() ==> !is_digit(s[k]),
    ensures
        leading_digits(s) == k,
    decreases s.len(),
{
    if k > 0 {
        assert(is_digit(s[0]));
        let rest = s.skip(1);
        assert forall|i: int| 0 <= i < k - 1 implies is_digit(#[trigger] rest[i]) by {
            assert(rest[i] == s[i + 1]);
        }
        if k < s.len() {
            assert(rest[k - 1] == s[k]);
        }
        lemma_leading(rest, k - 1);
    }
}

/// **Law.** The contract is the number after the first `(contract ` in what a
/// helper prints, however it goes on; without such a number there is none.
pub proof fn the_contract_is_the_number_after_the_word(
    output: &str,
    before: Seq<char>,
    digits: int,
    contract: Option<u32>,
    printed: Option<String>,
    asked: Option<u32>,
)
    requires
        call_ensures(parse_contract, (output,), contract),
        call_ensures(host_helper_contract, (&printed,), asked),
        printed is Some ==> (printed->0)@ == output@,
        first_after(output@, before, "(contract "@),
        0 <= digits <= output@.len() - before.len() - "(contract "@.len(),
        ({
            let rest = output@.skip((before.len() + "(contract "@.len()) as int);
            &&& forall|i: int| 0 <= i < digits ==> '0' <= #[trigger] rest[i] <= '9'
            &&& digits < rest.len() ==> !('0' <= rest[digits] <= '9')
        }),
    ensures
        ({
            let rest = output@.skip((before.len() + "(contract "@.len()) as int);
            let number = decimal_value(rest.take(digits));
            &&& contract is Some <==> digits > 0 && number <= u32::MAX
            &&& contract matches Some(c) ==> c == number
        }),
        printed is None ==> asked is None,
        printed is Some ==> asked == contract,
{
    lemma_first_after(output@, before, "(contract "@);
    let rest = output@.skip((before.len() + "(contract "@.len()) as int);
    assert forall|i: int| 0 <= i < digits implies is_digit(#[trigger] rest[i]) by {
        assert('0' <= rest[i] <= '9');
    }
    lemma_leading(rest, digits);
    let text = rest.take(digits);
    assert(all_digits(text)) by {
        assert forall|i: int| 0 <= i < text.len() implies is_digit(#[trigger] text[i]) by {
            assert(text[i] == rest[i]);
        }
    }
    if digits > 0 {
        assert(is_digit(text[0]));
    }
}

/// **Law.** What a helper prints ends in the contract it speaks, after its name
/// and version.
pub proof fn the_version_line_names_the_contract(version: &str, line: String)
    requires
        call_ensures(version_line, (version,), line),
    ensures
        line@ == "cosmic-nightlight-helper "@ + version@ + " (contract 1)"@,
{
    reveal_strlit(" (contract ");
    reveal_strlit(")");
    reveal_strlit(" (contract 1)");
    reveal_with_fuel(decimal, 2);
    assert(decimal(1) =~= seq!['1']);
    assert(line@ =~= "cosmic-nightlight-helper "@ + version@ + " (contract 1)"@);
}

/// **Law.** Inside a flatpak the helper's path is the host helper's.
pub proof fn a_flatpak_asks_for_the_hosts_helper(
    memory: &mut HostMemory,
    known: Known,
    around: Surroundings,
    bundled: Option<String>,
    path: Probe<String>,
    other: &mut HostMemory,
    found: Probe<String>,
)
    requires
        around.in_flatpak,
        call_ensures(helper_path, (memory, &known, &around), path),
        call_ensures(
            bundled_host_path,
            (&around.flatpak_info, "cosmic-nightlight-helper"),
            bundled,
        ),
        old(other)@ == old(memory)@,
        call_ensures(host_helper_path, (other, &known, &bundled), found),
    ensures
        path@ == found@,
        final(memory)@ == final(other)@,
{
}

} // verus!
