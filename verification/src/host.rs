//! Which privileged program an apply runs, and what the host still needs set up.
//!
//! Inside a flatpak the helper has to live on the host, and the host's files can
//! only be asked about one question at a time, each a round trip out of the
//! sandbox. So nothing here asks: each decision is worked out from the answers
//! known so far, and comes back either done or as the one question it needs
//! answered next.

use crate::engine::{contract_in, parse_contract, HELPER_CONTRACT};
use crate::scan::{lines, lines_of, strip_prefix, without_prefix};
use crate::text::{chars_of, optional_view, same_text, trim, trimmed, views};
use vstd::prelude::*;

verus! {

/// Where the helper may live on the host, in priority order. The polkit rule
/// whitelists both, so either can run without a password, which is why they are
/// tried ahead of the flatpak's own bundled copy.
pub const HELPER_CANDIDATES: [&'static str; 2] = [
    "/usr/bin/cosmic-nightlight-helper",
    "/usr/local/bin/cosmic-nightlight-helper",
];

/// Where the polkit rule may live on the host: where the setup writes it, and
/// where a distro package would put it.
pub const RULE_CANDIDATES: [&'static str; 2] = [
    "/etc/polkit-1/rules.d/49-cosmic-nightlight.rules",
    "/usr/share/polkit-1/rules.d/49-cosmic-nightlight.rules",
];

/// The path the host setup installs to, and so the one to name in an error when
/// nothing is found at all.
pub const SETUP_INSTALLS_TO: &'static str = "/usr/local/bin/cosmic-nightlight-helper";

/// The helper's name inside the flatpak.
pub const BUNDLED_HELPER: &'static str = "cosmic-nightlight-helper";

/// The setup program's name inside the flatpak.
pub const BUNDLED_SETUP: &'static str = "cosmic-nightlight-setup";

// ---------------------------------------------------------------------------
// Questions and answers
// ---------------------------------------------------------------------------
/// What can be asked about a path.
#[derive(Clone, Copy, Debug, PartialEq, Eq, Structural)]
pub enum Test {
    /// Whether the host has something to run there, or, for a directory, whether
    /// the host lets us look inside it.
    HostExecutable,
    /// Whether the host has a file there.
    HostFile,
    /// Whether the host has a directory there.
    HostDirectory,
    /// Whether something is there in our own view of the file system.
    LocalExists,
}

/// A question that has to be answered before a decision can be made.
#[derive(Debug)]
pub enum Question {
    Test(Test, String),
    /// What the host's helper at a path prints for `--version`.
    Version(String),
}

/// A [`Question`] as plain data.
pub enum QuestionView {
    Test(Test, Seq<char>),
    Version(Seq<char>),
}

impl View for Question {
    type V = QuestionView;

    open spec fn view(&self) -> QuestionView {
        match *self {
            Question::Test(test, path) => QuestionView::Test(test, path@),
            Question::Version(path) => QuestionView::Version(path@),
        }
    }
}

/// A decision, or the question it waits for.
#[derive(Debug)]
pub enum Probe<T> {
    Done(T),
    Ask(Question),
}

/// A [`Probe`] as plain data.
pub enum ProbeView<V> {
    Done(V),
    Ask(QuestionView),
}

impl<T: View> View for Probe<T> {
    type V = ProbeView<T::V>;

    open spec fn view(&self) -> ProbeView<T::V> {
        match *self {
            Probe::Done(value) => ProbeView::Done(value@),
            Probe::Ask(question) => ProbeView::Ask(question@),
        }
    }
}

/// One answered test.
#[derive(Debug)]
pub struct TestAnswer {
    pub test: Test,
    pub path: String,
    pub yes: bool,
}

/// One answered question about a helper's version: what it printed, if it ran
/// and exited successfully.
#[derive(Debug)]
pub struct VersionAnswer {
    pub path: String,
    pub output: Option<String>,
}

/// The answers known so far.
#[derive(Debug)]
pub struct Known {
    pub tests: Vec<TestAnswer>,
    pub versions: Vec<VersionAnswer>,
}

/// The first answer to a test, if there is one.
pub open spec fn first_test(answers: Seq<TestAnswer>, test: Test, path: Seq<char>) -> Option<bool>
    decreases answers.len(),
{
    if answers.len() == 0 {
        None
    } else if answers[0].test == test && answers[0].path@ == path {
        Some(answers[0].yes)
    } else {
        first_test(answers.skip(1), test, path)
    }
}

/// The first answer about a helper's version, if there is one.
pub open spec fn first_version(answers: Seq<VersionAnswer>, path: Seq<char>) -> Option<
    Option<Seq<char>>,
>
    decreases answers.len(),
{
    if answers.len() == 0 {
        None
    } else if answers[0].path@ == path {
        Some(optional_view(answers[0].output))
    } else {
        first_version(answers.skip(1), path)
    }
}

/// Answers to questions about a host, as far as they are known.
pub struct KnownView {
    pub test: spec_fn(Test, Seq<char>) -> Option<bool>,
    pub version: spec_fn(Seq<char>) -> Option<Option<Seq<char>>>,
}

impl View for Known {
    type V = KnownView;

    open spec fn view(&self) -> KnownView {
        KnownView {
            test: |test: Test, path: Seq<char>| first_test(self.tests@, test, path),
            version: |path: Seq<char>| first_version(self.versions@, path),
        }
    }
}

impl KnownView {
    /// Whether a question has been answered.
    pub open spec fn answers(self, question: QuestionView) -> bool {
        match question {
            QuestionView::Test(test, path) => (self.test)(test, path) is Some,
            QuestionView::Version(path) => (self.version)(path) is Some,
        }
    }
}

proof fn lemma_first_test_push(
    answers: Seq<TestAnswer>,
    last: TestAnswer,
    test: Test,
    path: Seq<char>,
)
    ensures
        first_test(answers.push(last), test, path) == (match first_test(answers, test, path) {
            Some(yes) => Some(yes),
            None => if last.test == test && last.path@ == path {
                Some(last.yes)
            } else {
                None
            },
        }),
    decreases answers.len(),
{
    if answers.len() == 0 {
        assert(answers.push(last)[0] == last);
        assert(answers.push(last).skip(1).len() == 0);
    } else {
        assert(answers.push(last).skip(1) =~= answers.skip(1).push(last));
        assert(answers.push(last)[0] == answers[0]);
        lemma_first_test_push(answers.skip(1), last, test, path);
    }
}

proof fn lemma_first_version_push(
    answers: Seq<VersionAnswer>,
    last: VersionAnswer,
    path: Seq<char>,
)
    ensures
        first_version(answers.push(last), path) == (match first_version(answers, path) {
            Some(output) => Some(output),
            None => if last.path@ == path {
                Some(optional_view(last.output))
            } else {
                None
            },
        }),
    decreases answers.len(),
{
    reveal_with_fuel(first_version, 2);
    if answers.len() == 0 {
        assert(answers.push(last)[0] == last);
        assert(answers.push(last).skip(1).len() == 0);
    } else {
        assert(answers.push(last).skip(1) =~= answers.skip(1).push(last));
        assert(answers.push(last)[0] == answers[0]);
        lemma_first_version_push(answers.skip(1), last, path);
    }
}

impl Known {
    /// Nothing known yet.
    pub fn nothing() -> (known: Known)
        ensures
            forall|question: QuestionView| !known@.answers(question),
    {
        Known { tests: Vec::new(), versions: Vec::new() }
    }

    /// The answer to a test, if it is known.
    pub fn tested(&self, test: Test, path: &str) -> (answer: Option<bool>)
        ensures
            answer == (self@.test)(test, path@),
    {
        let ghost all = self.tests@;
        assert(all.skip(0) =~= all);
        for i in 0..self.tests.len()
            invariant
                all == self.tests@,
                first_test(all, test, path@) == first_test(all.skip(i as int), test, path@),
        {
            assert(all.skip(i as int)[0] == all[i as int]);
            assert(all.skip(i as int).skip(1) =~= all.skip(i + 1));
            let answer = &self.tests[i];
            if answer.test == test && same_text(answer.path.as_str(), path) {
                return Some(answer.yes);
            }
        }
        assert(all.skip(all.len() as int).len() == 0);
        None
    }

    /// Notes the answer to a test. An answer already known stands.
    pub fn learn_test(&mut self, test: Test, path: String, yes: bool)
        ensures
            forall|t: Test, p: Seq<char>| #[trigger]
                (final(self)@.test)(t, p) == (match (old(self)@.test)(t, p) {
                    Some(known) => Some(known),
                    None => if t == test && p == path@ {
                        Some(yes)
                    } else {
                        None
                    },
                }),
            final(self)@.version == old(self)@.version,
    {
        let answer = TestAnswer { test, path, yes };
        proof {
            assert forall|t: Test, p: Seq<char>| #[trigger]
                first_test(self.tests@.push(answer), t, p) == (match first_test(self.tests@, t, p) {
                    Some(known) => Some(known),
                    None => if t == test && p == path@ {
                        Some(yes)
                    } else {
                        None
                    },
                }) by {
                lemma_first_test_push(self.tests@, answer, t, p);
            }
        }
        self.tests.push(answer);
        assert(self@.version =~= old(self)@.version);
    }

    /// Notes what a helper printed for its version. An answer already known
    /// stands.
    pub fn learn_version(&mut self, path: String, output: Option<String>)
        ensures
            forall|p: Seq<char>| #[trigger]
                (final(self)@.version)(p) == (match (old(self)@.version)(p) {
                    Some(known) => Some(known),
                    None => if p == path@ {
                        Some(optional_view(output))
                    } else {
                        None
                    },
                }),
            final(self)@.test == old(self)@.test,
    {
        let answer = VersionAnswer { path, output };
        proof {
            assert forall|p: Seq<char>| #[trigger]
                first_version(self.versions@.push(answer), p) == (match first_version(
                    self.versions@,
                    p,
                ) {
                    Some(known) => Some(known),
                    None => if p == path@ {
                        Some(optional_view(output))
                    } else {
                        None
                    },
                }) by {
                lemma_first_version_push(self.versions@, answer, p);
            }
        }
        self.versions.push(answer);
        assert(self@.test =~= old(self)@.test);
    }
}

// ---------------------------------------------------------------------------
// The programs inside the flatpak
// ---------------------------------------------------------------------------
/// The first line that names where the flatpak's own files are on the host.
pub open spec fn app_path_in(rows: Seq<Seq<char>>) -> Option<Seq<char>>
    decreases rows.len(),
{
    if rows.len() == 0 {
        None
    } else {
        match without_prefix(trim(rows[0]), "app-path="@) {
            Some(path) => Some(path),
            None => app_path_in(rows.skip(1)),
        }
    }
}

/// A bundled program's path on the host, given what `/.flatpak-info` holds.
pub open spec fn bundled_path(info: Option<Seq<char>>, program: Seq<char>) -> Option<Seq<char>> {
    match info {
        Some(text) => match app_path_in(lines(text)) {
            Some(path) => Some(path + "/libexec/"@ + program),
            None => None,
        },
        None => None,
    }
}

/// One of our own `/app/libexec` programs, named by its path on the host: our
/// sandbox-internal paths mean nothing to a process spawned outside. `info` is
/// what `/.flatpak-info` holds, which records the location as `app-path`.
pub fn bundled_host_path(info: &Option<String>, program: &str) -> (path: Option<String>)
    ensures
        optional_view(path) == bundled_path(optional_view(*info), program@),
{
    let text = match info {
        Some(text) => text.as_str(),
        None => {
            return None;
        },
    };
    let rows = lines_of(text);
    let ghost all = lines(text@);
    assert(all.skip(0) =~= all);
    for i in 0..rows.len()
        invariant
            views(rows@) == all,
            all == lines(text@),
            optional_view(*info) == Some(text@),
            app_path_in(all) == app_path_in(all.skip(i as int)),
    {
        assert(all[i as int] == rows@[i as int]@);
        assert(all.skip(i as int)[0] == rows@[i as int]@);
        assert(all.skip(i as int).skip(1) =~= all.skip(i + 1));
        if let Some(path) = strip_prefix(trimmed(rows[i]), "app-path=") {
            return Some(path.to_owned().concat("/libexec/").concat(program));
        }
    }
    assert(all.len() == rows.len());
    assert(all.skip(rows.len() as int).len() == 0);
    None
}

// ---------------------------------------------------------------------------
// Finding a helper
// ---------------------------------------------------------------------------
/// What probing the host for a helper turned up.
#[derive(Debug)]
pub enum HostHelper {
    /// A polkit-whitelisted path. Applies cost no password, and nothing the user
    /// can do later improves on that, so this answer is final.
    Whitelisted(String),
    /// Our own bundled copy. It works, but no rule names its path, so pkexec
    /// prompts every time. This answer can go out of date.
    Bundled(String),
    /// Nothing anywhere: no host install, and our own copy unreachable.
    Missing,
}

/// A [`HostHelper`] as plain data.
pub enum HostHelperView {
    Whitelisted(Seq<char>),
    Bundled(Seq<char>),
    Missing,
}

impl View for HostHelper {
    type V = HostHelperView;

    open spec fn view(&self) -> HostHelperView {
        match *self {
            HostHelper::Whitelisted(path) => HostHelperView::Whitelisted(path@),
            HostHelper::Bundled(path) => HostHelperView::Bundled(path@),
            HostHelper::Missing => HostHelperView::Missing,
        }
    }
}

/// The first candidate from `from` on that passes a test, by its index, or the
/// number of candidates when none does.
pub open spec fn candidate_known(known: KnownView, test: Test, from: int) -> ProbeView<usize>
    decreases 2 - from,
{
    if from >= 2 {
        ProbeView::Done(2)
    } else {
        match (known.test)(test, HELPER_CANDIDATES[from]@) {
            None => ProbeView::Ask(QuestionView::Test(test, HELPER_CANDIDATES[from]@)),
            Some(yes) => if yes {
                ProbeView::Done(from as usize)
            } else {
                candidate_known(known, test, from + 1)
            },
        }
    }
}

/// The helper the host has, as far as the answers go: the first whitelisted path
/// that can be run, else the bundled copy if that can be.
pub open spec fn helper_known(known: KnownView, bundled: Option<Seq<char>>) -> ProbeView<
    HostHelperView,
> {
    match candidate_known(known, Test::HostExecutable, 0) {
        ProbeView::Ask(question) => ProbeView::Ask(question),
        ProbeView::Done(index) => if index < 2 {
            ProbeView::Done(HostHelperView::Whitelisted(HELPER_CANDIDATES[index as int]@))
        } else {
            match bundled {
                None => ProbeView::Done(HostHelperView::Missing),
                Some(path) => match (known.test)(Test::HostExecutable, path) {
                    None => ProbeView::Ask(QuestionView::Test(Test::HostExecutable, path)),
                    Some(yes) => ProbeView::Done(
                        if yes {
                            HostHelperView::Bundled(path)
                        } else {
                            HostHelperView::Missing
                        },
                    ),
                },
            }
        },
    }
}

/// The first helper candidate that passes `test`, by its index.
fn first_candidate(known: &Known, test: Test) -> (probe: Probe<usize>)
    ensures
        probe@ == candidate_known(known@, test, 0),
        probe matches Probe::Done(index) ==> index <= 2,
{
    for i in 0..2usize
        invariant
            candidate_known(known@, test, 0) == candidate_known(known@, test, i as int),
    {
        let path = HELPER_CANDIDATES[i];
        match known.tested(test, path) {
            None => {
                return Probe::Ask(Question::Test(test, path.to_owned()));
            },
            Some(yes) => {
                if yes {
                    return Probe::Done(i);
                }
            },
        }
    }
    Probe::Done(2)
}

/// Probes the host for a helper, in preference order. The whitelisted paths come
/// first so a set-up system never falls back. `bundled` is our own copy's path
/// on the host, which is the last resort and deliberately still usable: the
/// setup stops the prompting, it does not unlock the feature.
pub fn probe_host_helper(known: &Known, bundled: &Option<String>) -> (probe: Probe<HostHelper>)
    ensures
        probe@ == helper_known(known@, optional_view(*bundled)),
{
    let index = match first_candidate(known, Test::HostExecutable) {
        Probe::Ask(question) => {
            return Probe::Ask(question);
        },
        Probe::Done(index) => index,
    };
    if index < 2 {
        return Probe::Done(HostHelper::Whitelisted(HELPER_CANDIDATES[index].to_owned()));
    }
    match bundled {
        None => Probe::Done(HostHelper::Missing),
        Some(path) => match known.tested(Test::HostExecutable, path.as_str()) {
            None => Probe::Ask(Question::Test(Test::HostExecutable, path.as_str().to_owned())),
            Some(yes) => if yes {
                Probe::Done(HostHelper::Bundled(path.as_str().to_owned()))
            } else {
                Probe::Done(HostHelper::Missing)
            },
        },
    }
}

// ---------------------------------------------------------------------------
// Finding the rule
// ---------------------------------------------------------------------------
/// What looking for one polkit rule turned up.
#[derive(Clone, Copy, Debug, PartialEq, Eq, Structural)]
pub enum RuleProbe {
    /// The rule is there.
    Present,
    /// It is not: the directory that would hold it is open to us, and does not.
    Absent,
    /// No answer. That directory cannot be searched from here, so a rule sitting
    /// in it looks exactly like one that was never installed.
    Unreadable,
}

impl View for RuleProbe {
    type V = RuleProbe;

    open spec fn view(&self) -> RuleProbe {
        *self
    }
}

/// Where the last `/` of `path` is, or `-1`.
pub open spec fn last_slash(path: Seq<char>) -> int
    decreases path.len(),
{
    if path.len() == 0 {
        -1
    } else if path.last() == '/' {
        path.len() - 1
    } else {
        last_slash(path.drop_last())
    }
}

/// A path without the `/` and the `.` segments it ends in. A root, and a `.` that
/// is all there is, stay.
pub open spec fn without_tail(path: Seq<char>) -> Seq<char>
    decreases path.len(),
{
    let n = path.len() as int;
    if n >= 2 && (path[n - 1] == '/' || (path[n - 1] == '.' && path[n - 2] == '/')) {
        without_tail(path.drop_last())
    } else {
        path
    }
}

/// The directory that holds what a path names, which may be the empty path. A
/// root and an empty path are in none.
pub open spec fn directory(path: Seq<char>) -> Option<Seq<char>> {
    let named = without_tail(path);
    if named.len() == 0 || named == seq!['/'] {
        None
    } else {
        Some(without_tail(named.take(last_slash(named) + 1)))
    }
}

/// How much of the first `end` characters of a path is left without its tail.
fn tail_start(chars: &Vec<char>, end: usize) -> (start: usize)
    requires
        end <= chars.len(),
    ensures
        start <= end,
        chars@.take(start as int) == without_tail(chars@.take(end as int)),
{
    let mut start: usize = end;
    while start >= 2 && (chars[start - 1] == '/' || (chars[start - 1] == '.' && chars[start - 2]
        == '/'))
        invariant
            start <= end <= chars.len(),
            without_tail(chars@.take(end as int)) == without_tail(chars@.take(start as int)),
        decreases start,
    {
        assert(chars@.take(start as int).drop_last() =~= chars@.take(start - 1));
        start = start - 1;
    }
    start
}

/// The directory that holds what a path names.
pub fn directory_of(path: &str) -> (dir: Option<String>)
    ensures
        optional_view(dir) == directory(path@),
{
    let chars = chars_of(path);
    assert(chars@.take(chars.len() as int) =~= path@);
    let named = tail_start(&chars, chars.len());
    let ghost name = without_tail(path@);
    assert(name == chars@.take(named as int));
    if named == 0 {
        return None;
    }
    if named == 1 && chars[0] == '/' {
        assert(name =~= seq!['/']);
        return None;
    }
    assert(name != seq!['/']) by {
        if named == 1 {
            assert(name[0] == chars@[0]);
        }
    }
    let mut end: usize = named;
    assert(name.take(named as int) =~= name);
    while end > 0 && chars[end - 1] != '/'
        invariant
            end <= named <= chars.len(),
            name == chars@.take(named as int),
            last_slash(name) == last_slash(name.take(end as int)),
        decreases end,
    {
        assert(name.take(end as int).drop_last() =~= name.take(end - 1));
        end = end - 1;
    }
    assert(last_slash(name) + 1 == end);
    assert(name.take(end as int) =~= chars@.take(end as int));
    let start = tail_start(&chars, end);
    let dir = path.substring_char(0, start);
    assert(dir@ =~= chars@.take(start as int));
    Some(dir.to_owned())
}

/// What is known about one polkit rule.
pub open spec fn rule_known(known: KnownView, path: Seq<char>) -> ProbeView<RuleProbe> {
    match (known.test)(Test::HostFile, path) {
        None => ProbeView::Ask(QuestionView::Test(Test::HostFile, path)),
        Some(file) => if file {
            ProbeView::Done(RuleProbe::Present)
        } else {
            match directory(path) {
                None => ProbeView::Done(RuleProbe::Absent),
                Some(dir) => match (known.test)(Test::HostDirectory, dir) {
                    None => ProbeView::Ask(QuestionView::Test(Test::HostDirectory, dir)),
                    Some(there) => if !there {
                        ProbeView::Done(RuleProbe::Absent)
                    } else {
                        match (known.test)(Test::HostExecutable, dir) {
                            None => ProbeView::Ask(QuestionView::Test(Test::HostExecutable, dir)),
                            Some(open) => ProbeView::Done(
                                if open {
                                    RuleProbe::Absent
                                } else {
                                    RuleProbe::Unreadable
                                },
                            ),
                        }
                    },
                },
            }
        },
    }
}

/// Looks for one polkit rule on the host, keeping "not there" apart from "cannot
/// look": a missing file and a missing search permission give the same answer to
/// a test for the file, and mean opposite things.
pub fn probe_rule(known: &Known, path: &str) -> (probe: Probe<RuleProbe>)
    ensures
        probe@ == rule_known(known@, path@),
{
    match known.tested(Test::HostFile, path) {
        None => {
            return Probe::Ask(Question::Test(Test::HostFile, path.to_owned()));
        },
        Some(file) => {
            if file {
                return Probe::Done(RuleProbe::Present);
            }
        },
    }
    let dir = match directory_of(path) {
        Some(dir) => dir,
        None => {
            return Probe::Done(RuleProbe::Absent);
        },
    };
    match known.tested(Test::HostDirectory, dir.as_str()) {
        None => {
            return Probe::Ask(Question::Test(Test::HostDirectory, dir));
        },
        Some(there) => {
            if !there {
                return Probe::Done(RuleProbe::Absent);
            }
        },
    }
    match known.tested(Test::HostExecutable, dir.as_str()) {
        None => Probe::Ask(Question::Test(Test::HostExecutable, dir)),
        Some(open) => if open {
            Probe::Done(RuleProbe::Absent)
        } else {
            Probe::Done(RuleProbe::Unreadable)
        },
    }
}

/// Whether one candidate's probe counts as the rule being installed. One we
/// cannot see does: a rule wrongly thought missing causes the very prompts it is
/// looked for to prevent, while one wrongly thought present only withholds an
/// offer.
pub fn counts_as_installed(probe: RuleProbe) -> (installed: bool)
    ensures
        installed == (probe != RuleProbe::Absent),
{
    match probe {
        RuleProbe::Absent => false,
        _ => true,
    }
}

/// Whether a rule from the candidate `from` on counts as installed.
pub open spec fn any_rule_known(known: KnownView, from: int) -> ProbeView<bool>
    decreases 2 - from,
{
    if from >= 2 {
        ProbeView::Done(false)
    } else {
        match rule_known(known, RULE_CANDIDATES[from]@) {
            ProbeView::Ask(question) => ProbeView::Ask(question),
            ProbeView::Done(probe) => if probe != RuleProbe::Absent {
                ProbeView::Done(true)
            } else {
                any_rule_known(known, from + 1)
            },
        }
    }
}

/// Whether the host carries the rule that makes the whitelisted helper paths
/// password-less.
pub fn host_has_polkit_rule(known: &Known) -> (probe: Probe<bool>)
    ensures
        probe@ == any_rule_known(known@, 0),
{
    for i in 0..2usize
        invariant
            any_rule_known(known@, 0) == any_rule_known(known@, i as int),
    {
        match probe_rule(known, RULE_CANDIDATES[i]) {
            Probe::Ask(question) => {
                return Probe::Ask(question);
            },
            Probe::Done(probe) => {
                if counts_as_installed(probe) {
                    return Probe::Done(true);
                }
            },
        }
    }
    Probe::Done(false)
}

// ---------------------------------------------------------------------------
// The setup
// ---------------------------------------------------------------------------
/// What the GUI should offer the user about the host-side helper.
#[derive(Clone, Copy, Debug, PartialEq, Eq, Structural)]
pub enum HostSetup {
    /// Nothing to offer. Not sandboxed at all, or a host helper is installed and
    /// still speaks our contract.
    Ready,
    /// Sandboxed without a working host install: no helper at a whitelisted path,
    /// or one with no polkit rule to make it password-less.
    Needed,
    /// A host helper is installed, but it predates the command line this build
    /// sends it.
    Outdated,
}

impl View for HostSetup {
    type V = HostSetup;

    open spec fn view(&self) -> HostSetup {
        *self
    }
}

/// Whether what a helper printed says it speaks our contract.
pub open spec fn speaks_contract(output: Option<Seq<char>>) -> bool {
    output is Some && contract_in(output->0) is Some && contract_in(output->0)->0
        >= HELPER_CONTRACT
}

/// What the host still needs, as far as the answers go.
pub open spec fn setup_known(known: KnownView, in_flatpak: bool, info: Option<Seq<char>>) -> ProbeView<
    HostSetup,
> {
    if !in_flatpak {
        ProbeView::Done(HostSetup::Ready)
    } else {
        match helper_known(known, bundled_path(info, BUNDLED_HELPER@)) {
            ProbeView::Ask(question) => ProbeView::Ask(question),
            ProbeView::Done(helper) => match helper {
                HostHelperView::Whitelisted(path) => match any_rule_known(known, 0) {
                    ProbeView::Ask(question) => ProbeView::Ask(question),
                    ProbeView::Done(rule) => if !rule {
                        ProbeView::Done(HostSetup::Needed)
                    } else {
                        match (known.version)(path) {
                            None => ProbeView::Ask(QuestionView::Version(path)),
                            Some(output) => ProbeView::Done(
                                if speaks_contract(output) {
                                    HostSetup::Ready
                                } else {
                                    HostSetup::Outdated
                                },
                            ),
                        }
                    },
                },
                _ => ProbeView::Done(HostSetup::Needed),
            },
        }
    }
}

/// The command line an installed helper speaks, given what it printed for
/// `--version`; `None` stands for one that did not run or failed.
pub fn host_helper_contract(output: &Option<String>) -> (contract: Option<u32>)
    ensures
        contract is Some <==> output is Some && contract_in((output->0)@) is Some,
        contract is Some ==> contract->0 == contract_in((output->0)@)->0,
{
    match output {
        Some(text) => parse_contract(text.as_str()),
        None => None,
    }
}

impl Known {
    /// The command line the helper at `path` speaks, if it has been asked.
    fn contract_of(&self, path: &str) -> (contract: Option<Option<u32>>)
        ensures
            contract is Some <==> (self@.version)(path@) is Some,
            contract is Some ==> speaks_contract((self@.version)(path@)->0) == (contract->0 is Some
                && (contract->0)->0 >= HELPER_CONTRACT),
    {
        let ghost all = self.versions@;
        assert(all.skip(0) =~= all);
        for i in 0..self.versions.len()
            invariant
                all == self.versions@,
                first_version(all, path@) == first_version(all.skip(i as int), path@),
        {
            assert(all.skip(i as int)[0] == all[i as int]);
            assert(all.skip(i as int).skip(1) =~= all.skip(i + 1));
            let answer = &self.versions[i];
            if same_text(answer.path.as_str(), path) {
                return Some(host_helper_contract(&answer.output));
            }
        }
        assert(all.skip(all.len() as int).len() == 0);
        None
    }
}

/// Works out what the host still needs.
///
/// A helper at a whitelisted path is only half the setup: the rule is what makes
/// that path password-less, and half-installed is reachable in ordinary use.
pub fn probe_host_setup(known: &Known, in_flatpak: bool, info: &Option<String>) -> (probe: Probe<
    HostSetup,
>)
    ensures
        probe@ == setup_known(known@, in_flatpak, optional_view(*info)),
{
    if !in_flatpak {
        return Probe::Done(HostSetup::Ready);
    }
    let bundled = bundled_host_path(info, BUNDLED_HELPER);
    let path = match probe_host_helper(known, &bundled) {
        Probe::Ask(question) => {
            return Probe::Ask(question);
        },
        Probe::Done(helper) => match helper {
            HostHelper::Whitelisted(path) => path,
            _ => {
                return Probe::Done(HostSetup::Needed);
            },
        },
    };
    match host_has_polkit_rule(known) {
        Probe::Ask(question) => {
            return Probe::Ask(question);
        },
        Probe::Done(rule) => {
            if !rule {
                return Probe::Done(HostSetup::Needed);
            }
        },
    }
    match known.contract_of(path.as_str()) {
        None => Probe::Ask(Question::Version(path)),
        Some(contract) => {
            if let Some(contract) = contract {
                if contract >= HELPER_CONTRACT {
                    return Probe::Done(HostSetup::Ready);
                }
            }
            // Either too old to understand us, or old enough to predate
            // `--version` entirely: the same remedy, so the same answer.
            Probe::Done(HostSetup::Outdated)
        },
    }
}

// ---------------------------------------------------------------------------
// What is remembered about the host
// ---------------------------------------------------------------------------
/// What a process remembers about the host. Only answers that nothing can
/// improve on are kept; every other answer is worked out again, which is what
/// makes the setup take effect without restarting the app.
#[derive(Debug)]
pub struct HostMemory {
    /// The whitelisted helper that was found.
    pub helper: Option<String>,
    /// Whether the host has been found fully set up.
    pub setup_ready: bool,
    /// Whether the setup has run to completion and left the host no better off,
    /// which means it cannot install here.
    pub setup_ineffective: bool,
}

/// A [`HostMemory`] as plain data.
#[verifier::ext_equal]
pub struct HostMemoryView {
    pub helper: Option<Seq<char>>,
    pub setup_ready: bool,
    pub setup_ineffective: bool,
}

impl View for HostMemory {
    type V = HostMemoryView;

    open spec fn view(&self) -> HostMemoryView {
        HostMemoryView {
            helper: optional_view(self.helper),
            setup_ready: self.setup_ready,
            setup_ineffective: self.setup_ineffective,
        }
    }
}

impl HostMemory {
    /// What a process remembers when it starts: nothing.
    pub fn fresh() -> (memory: HostMemory)
        ensures
            memory@ == (HostMemoryView {
                helper: None,
                setup_ready: false,
                setup_ineffective: false,
            }),
    {
        HostMemory { helper: None, setup_ready: false, setup_ineffective: false }
    }
}

/// The memory once everything that may have changed on the host is dropped.
pub open spec fn forgotten(memory: HostMemoryView) -> HostMemoryView {
    HostMemoryView { helper: None, setup_ready: false, ..memory }
}

/// Drops everything remembered about the host, so the next question resolves
/// from scratch. Called whenever an apply fails, because the cheap explanation
/// for a helper that worked and then didn't is that it is no longer there.
pub fn forget_host_helper(memory: &mut HostMemory)
    ensures
        final(memory)@ == forgotten(old(memory)@),
{
    memory.helper = None;
    memory.setup_ready = false;
}

/// The helper to run for a sandboxed apply, and the memory afterwards.
pub open spec fn host_helper_step(
    memory: HostMemoryView,
    known: KnownView,
    bundled: Option<Seq<char>>,
) -> (ProbeView<Seq<char>>, HostMemoryView) {
    match memory.helper {
        Some(path) => (ProbeView::Done(path), memory),
        None => match helper_known(known, bundled) {
            ProbeView::Ask(question) => (ProbeView::Ask(question), memory),
            ProbeView::Done(helper) => match helper {
                HostHelperView::Whitelisted(path) => (
                    ProbeView::Done(path),
                    HostMemoryView { helper: Some(path), ..memory },
                ),
                HostHelperView::Bundled(path) => (ProbeView::Done(path), memory),
                HostHelperView::Missing => (ProbeView::Done(SETUP_INSTALLS_TO@), memory),
            },
        },
    }
}

/// The helper to run for a sandboxed apply, remembering the answer only once it
/// is final. With nothing found it names the path the setup installs to, so
/// pkexec's error points at what is missing.
pub fn host_helper_path(memory: &mut HostMemory, known: &Known, bundled: &Option<String>) -> (probe:
    Probe<String>)
    ensures
        (probe@, final(memory)@) == host_helper_step(
            old(memory)@,
            known@,
            optional_view(*bundled),
        ),
{
    if let Some(path) = &memory.helper {
        return Probe::Done(path.as_str().to_owned());
    }
    match probe_host_helper(known, bundled) {
        Probe::Ask(question) => Probe::Ask(question),
        Probe::Done(helper) => match helper {
            HostHelper::Whitelisted(path) => {
                memory.helper = Some(path.as_str().to_owned());
                Probe::Done(path)
            },
            HostHelper::Bundled(path) => Probe::Done(path),
            HostHelper::Missing => Probe::Done(SETUP_INSTALLS_TO.to_owned()),
        },
    }
}

/// What the host still needs, and the memory afterwards.
pub open spec fn host_setup_step(
    memory: HostMemoryView,
    known: KnownView,
    in_flatpak: bool,
    info: Option<Seq<char>>,
) -> (ProbeView<HostSetup>, HostMemoryView) {
    if memory.setup_ready {
        (ProbeView::Done(HostSetup::Ready), memory)
    } else {
        let probe = setup_known(known, in_flatpak, info);
        (
            probe,
            if probe == ProbeView::Done(HostSetup::Ready) {
                HostMemoryView { setup_ready: true, ..memory }
            } else {
                memory
            },
        )
    }
}

/// Whether to offer the user the one-time host setup, and which way to word it.
///
/// Every answer but [`HostSetup::Ready`] is worked out again rather than held,
/// because those are precisely the answers something else may have just made
/// stale, our own other processes above all.
pub fn host_setup(
    memory: &mut HostMemory,
    known: &Known,
    in_flatpak: bool,
    info: &Option<String>,
) -> (probe: Probe<HostSetup>)
    ensures
        (probe@, final(memory)@) == host_setup_step(
            old(memory)@,
            known@,
            in_flatpak,
            optional_view(*info),
        ),
{
    if memory.setup_ready {
        return Probe::Done(HostSetup::Ready);
    }
    let probe = probe_host_setup(known, in_flatpak, info);
    if let Probe::Done(state) = &probe {
        if *state == HostSetup::Ready {
            memory.setup_ready = true;
        }
    }
    probe
}

// ---------------------------------------------------------------------------
// What an apply runs
// ---------------------------------------------------------------------------
/// What a process is told about where it runs, once, when it starts.
#[derive(Debug)]
pub struct Surroundings {
    /// Whether this is a flatpak sandbox.
    pub in_flatpak: bool,
    /// What `/.flatpak-info` holds.
    pub flatpak_info: Option<String>,
    /// A helper named outright by the environment.
    pub helper_override: Option<String>,
    /// The graphical session's virtual terminal.
    pub session_vt: Option<String>,
}

/// A [`Surroundings`] as plain data.
pub struct SurroundingsView {
    pub in_flatpak: bool,
    pub flatpak_info: Option<Seq<char>>,
    pub helper_override: Option<Seq<char>>,
    pub session_vt: Option<Seq<char>>,
}

impl View for Surroundings {
    type V = SurroundingsView;

    open spec fn view(&self) -> SurroundingsView {
        SurroundingsView {
            in_flatpak: self.in_flatpak,
            flatpak_info: optional_view(self.flatpak_info),
            helper_override: optional_view(self.helper_override),
            session_vt: optional_view(self.session_vt),
        }
    }
}

/// The helper's path, and the memory afterwards.
pub open spec fn helper_path_step(
    memory: HostMemoryView,
    known: KnownView,
    around: SurroundingsView,
) -> (ProbeView<Seq<char>>, HostMemoryView) {
    if around.in_flatpak {
        host_helper_step(memory, known, bundled_path(around.flatpak_info, BUNDLED_HELPER@))
    } else {
        match candidate_known(known, Test::LocalExists, 0) {
            ProbeView::Ask(question) => (ProbeView::Ask(question), memory),
            ProbeView::Done(index) => (
                ProbeView::Done(
                    if index < 2 {
                        HELPER_CANDIDATES[index as int]@
                    } else {
                        HELPER_CANDIDATES[0]@
                    },
                ),
                memory,
            ),
        }
    }
}

/// Resolves the helper path: the first candidate that exists, falling back to
/// the first of them so pkexec produces a clear error naming it.
pub fn helper_path(memory: &mut HostMemory, known: &Known, around: &Surroundings) -> (probe: Probe<
    String,
>)
    ensures
        (probe@, final(memory)@) == helper_path_step(old(memory)@, known@, around@),
{
    if around.in_flatpak {
        let bundled = bundled_host_path(&around.flatpak_info, BUNDLED_HELPER);
        return host_helper_path(memory, known, &bundled);
    }
    match first_candidate(known, Test::LocalExists) {
        Probe::Ask(question) => Probe::Ask(question),
        Probe::Done(index) => if index < 2 {
            Probe::Done(HELPER_CANDIDATES[index].to_owned())
        } else {
            Probe::Done(HELPER_CANDIDATES[0].to_owned())
        },
    }
}

/// The arguments that tell the helper which virtual terminal the session is on.
pub open spec fn vt_arguments(session_vt: Option<Seq<char>>) -> Seq<Seq<char>> {
    if session_vt is Some && (session_vt->0).len() > 0 {
        seq!["--session-vt"@, session_vt->0]
    } else {
        seq![]
    }
}

/// The graphical session's virtual terminal, as an argument to the helper, or
/// nothing where it is unset. `pkexec` strips the environment, so this has to be
/// passed explicitly rather than inherited.
pub fn session_vt_args(session_vt: &Option<String>) -> (args: Vec<String>)
    ensures
        crate::text::string_views(args@) == vt_arguments(optional_view(*session_vt)),
{
    let mut args: Vec<String> = Vec::new();
    if let Some(vt) = session_vt {
        if !vt.as_str().is_empty() {
            args.push("--session-vt".to_owned());
            args.push(vt.as_str().to_owned());
        }
    }
    assert(crate::text::string_views(args@) =~= vt_arguments(optional_view(*session_vt)));
    args
}

/// What a privileged call runs and whether that also installs, and the memory
/// afterwards.
pub open spec fn program_step(memory: HostMemoryView, known: KnownView, around: SurroundingsView) -> (
    ProbeView<(Seq<char>, bool)>,
    HostMemoryView,
) {
    if around.helper_override is Some {
        (ProbeView::Done((around.helper_override->0, false)), memory)
    } else {
        let (setup, memory) = if around.in_flatpak {
            host_setup_step(memory, known, around.in_flatpak, around.flatpak_info)
        } else {
            (ProbeView::Done(HostSetup::Ready), memory)
        };
        let installer = bundled_path(around.flatpak_info, BUNDLED_SETUP@);
        match setup {
            ProbeView::Ask(question) => (ProbeView::Ask(question), memory),
            ProbeView::Done(state) => if state != HostSetup::Ready && !memory.setup_ineffective
                && installer is Some {
                (ProbeView::Done((installer->0, true)), memory)
            } else {
                match helper_path_step(memory, known, around) {
                    (ProbeView::Ask(question), after) => (ProbeView::Ask(question), after),
                    (ProbeView::Done(path), after) => (ProbeView::Done((path, false)), after),
                }
            },
        }
    }
}

/// What the privileged call should run, and whether that program also installs.
///
/// Sandboxed and not yet set up, this is the setup program rather than the
/// helper: it installs, then forwards the same arguments on to what it
/// installed. The user was going to be asked for a password by this call either
/// way, so that one prompt is spent on both the change and the setup.
pub fn privileged_program(memory: &mut HostMemory, known: &Known, around: &Surroundings) -> (probe:
    Probe<(String, bool)>)
    ensures
        (probe@, final(memory)@) == program_step(old(memory)@, known@, around@),
{
    // An override names the program outright, so honor it ahead of the setup
    // routing rather than installing something else over the top of it.
    if let Some(path) = &around.helper_override {
        return Probe::Done((path.as_str().to_owned(), false));
    }
    if around.in_flatpak {
        match host_setup(memory, known, around.in_flatpak, &around.flatpak_info) {
            Probe::Ask(question) => {
                return Probe::Ask(question);
            },
            Probe::Done(state) => {
                if state != HostSetup::Ready && !memory.setup_ineffective {
                    let setup = bundled_host_path(&around.flatpak_info, BUNDLED_SETUP);
                    if let Some(setup) = setup {
                        return Probe::Done((setup, true));
                    }
                }
            },
        }
    }
    match helper_path(memory, known, around) {
        Probe::Ask(question) => Probe::Ask(question),
        Probe::Done(path) => Probe::Done((path, false)),
    }
}

/// Whether a program is still there, as far as the answers go.
pub open spec fn program_known(known: KnownView, in_flatpak: bool, program: Seq<char>) -> ProbeView<
    bool,
> {
    let test = if in_flatpak {
        Test::HostExecutable
    } else {
        Test::LocalExists
    };
    match (known.test)(test, program) {
        None => ProbeView::Ask(QuestionView::Test(test, program)),
        Some(yes) => ProbeView::Done(yes),
    }
}

/// Whether the program we just asked pkexec to run is actually there. Asked only
/// on a failure path, to resolve what pkexec's "not authorized" meant.
pub fn program_exists(known: &Known, in_flatpak: bool, program: &str) -> (probe: Probe<bool>)
    ensures
        probe@ == program_known(known@, in_flatpak, program@),
{
    let test = if in_flatpak {
        Test::HostExecutable
    } else {
        Test::LocalExists
    };
    match known.tested(test, program) {
        None => Probe::Ask(Question::Test(test, program.to_owned())),
        Some(yes) => Probe::Done(yes),
    }
}

/// The flag that puts a test to the host's `test` program, where the host is to
/// be asked at all.
pub open spec fn test_flag(test: Test) -> Option<Seq<char>> {
    match test {
        Test::HostExecutable => Some("-x"@),
        Test::HostFile => Some("-f"@),
        Test::HostDirectory => Some("-d"@),
        Test::LocalExists => None,
    }
}

/// The arguments to `flatpak-spawn` that answer a question on the host, or
/// `None` where our own view of the file system answers it.
pub open spec fn question_arguments(question: QuestionView) -> Option<Seq<Seq<char>>> {
    match question {
        QuestionView::Test(test, path) => match test_flag(test) {
            Some(flag) => Some(seq!["--host"@, "test"@, flag, path]),
            None => None,
        },
        QuestionView::Version(path) => Some(seq!["--host"@, path, "--version"@]),
    }
}

/// The arguments to `flatpak-spawn` that answer a question on the host.
pub fn host_test(question: &Question) -> (args: Option<Vec<String>>)
    ensures
        args is Some <==> question_arguments(question@) is Some,
        args is Some ==> crate::text::string_views((args->0)@) == question_arguments(question@)->0,
{
    let mut args: Vec<String> = Vec::new();
    args.push("--host".to_owned());
    match question {
        Question::Test(test, path) => {
            let flag = match test {
                Test::HostExecutable => "-x",
                Test::HostFile => "-f",
                Test::HostDirectory => "-d",
                Test::LocalExists => {
                    return None;
                },
            };
            args.push("test".to_owned());
            args.push(flag.to_owned());
            args.push(path.as_str().to_owned());
        },
        Question::Version(path) => {
            args.push(path.as_str().to_owned());
            args.push("--version".to_owned());
        },
    }
    assert(crate::text::string_views(args@) =~= question_arguments(question@)->0);
    Some(args)
}

// ---------------------------------------------------------------------------
// What the answers are worth
// ---------------------------------------------------------------------------
/// A host, by what it would answer to every question.
pub struct HostView {
    pub test: spec_fn(Test, Seq<char>) -> bool,
    pub version: spec_fn(Seq<char>) -> Option<Seq<char>>,
}

/// Whether every answer known so far is the one the host gives.
pub open spec fn agrees(known: KnownView, host: HostView) -> bool {
    &&& forall|test: Test, path: Seq<char>|
        (#[trigger] (known.test)(test, path)) is Some ==> (known.test)(test, path)->0 == (
        host.test)(test, path)
    &&& forall|path: Seq<char>|
        (#[trigger] (known.version)(path)) is Some ==> (known.version)(path)->0 == (host.version)(
            path,
        )
}

/// The helper a host has: the first whitelisted path that can be run, else the
/// bundled copy if that can be.
pub open spec fn helper_on(host: HostView, bundled: Option<Seq<char>>) -> HostHelperView {
    if (host.test)(Test::HostExecutable, HELPER_CANDIDATES[0]@) {
        HostHelperView::Whitelisted(HELPER_CANDIDATES[0]@)
    } else if (host.test)(Test::HostExecutable, HELPER_CANDIDATES[1]@) {
        HostHelperView::Whitelisted(HELPER_CANDIDATES[1]@)
    } else if bundled is Some && (host.test)(Test::HostExecutable, bundled->0) {
        HostHelperView::Bundled(bundled->0)
    } else {
        HostHelperView::Missing
    }
}

/// Whether a rule cannot be ruled out on a host: it is there, or the directory
/// that would hold it is there and closed to us.
pub open spec fn rule_on(host: HostView, path: Seq<char>) -> bool {
    (host.test)(Test::HostFile, path) || (directory(path) is Some && (host.test)(
        Test::HostDirectory,
        directory(path)->0,
    ) && !(host.test)(Test::HostExecutable, directory(path)->0))
}

/// What a host still needs.
pub open spec fn setup_on(host: HostView, in_flatpak: bool, info: Option<Seq<char>>) -> HostSetup {
    let helper = helper_on(host, bundled_path(info, BUNDLED_HELPER@));
    if !in_flatpak {
        HostSetup::Ready
    } else if !(helper is Whitelisted) || !(rule_on(host, RULE_CANDIDATES[0]@) || rule_on(
        host,
        RULE_CANDIDATES[1]@,
    )) {
        HostSetup::Needed
    } else if speaks_contract((host.version)(helper->Whitelisted_0)) {
        HostSetup::Ready
    } else {
        HostSetup::Outdated
    }
}

/// **Law.** A probe that is done has the right answer, however little of the
/// host it asked about: it is the answer for every host that agrees with what is
/// known.
pub proof fn a_finished_probe_is_right(
    known: KnownView,
    host: HostView,
    in_flatpak: bool,
    info: Option<Seq<char>>,
    bundled: Option<Seq<char>>,
)
    requires
        agrees(known, host),
    ensures
        helper_known(known, bundled) matches ProbeView::Done(helper) ==> helper == helper_on(
            host,
            bundled,
        ),
        any_rule_known(known, 0) matches ProbeView::Done(rule) ==> rule == (rule_on(
            host,
            RULE_CANDIDATES[0]@,
        ) || rule_on(host, RULE_CANDIDATES[1]@)),
        setup_known(known, in_flatpak, info) matches ProbeView::Done(setup) ==> setup == setup_on(
            host,
            in_flatpak,
            info,
        ),
{
    reveal_with_fuel(candidate_known, 3);
    reveal_with_fuel(any_rule_known, 3);
}

/// **Law.** A probe never asks a question that has been answered, so answering
/// what it asks always gets it further.
pub proof fn a_probe_asks_only_what_is_unknown(
    known: KnownView,
    in_flatpak: bool,
    info: Option<Seq<char>>,
    bundled: Option<Seq<char>>,
)
    ensures
        helper_known(known, bundled) matches ProbeView::Ask(question) ==> !known.answers(question),
        any_rule_known(known, 0) matches ProbeView::Ask(question) ==> !known.answers(question),
        setup_known(known, in_flatpak, info) matches ProbeView::Ask(question) ==> !known.answers(
            question,
        ),
{
    reveal_with_fuel(candidate_known, 3);
    reveal_with_fuel(any_rule_known, 3);
}

/// The questions the setup probe can ask.
pub open spec fn setup_questions(info: Option<Seq<char>>) -> Seq<QuestionView> {
    let rules = seq![RULE_CANDIDATES[0]@, RULE_CANDIDATES[1]@];
    let dirs = seq![directory(rules[0]), directory(rules[1])];
    let bundled = bundled_path(info, BUNDLED_HELPER@);
    seq![
        QuestionView::Test(Test::HostExecutable, HELPER_CANDIDATES[0]@),
        QuestionView::Test(Test::HostExecutable, HELPER_CANDIDATES[1]@),
        QuestionView::Test(Test::HostExecutable, bundled->0),
        QuestionView::Test(Test::HostFile, rules[0]),
        QuestionView::Test(Test::HostDirectory, dirs[0]->0),
        QuestionView::Test(Test::HostExecutable, dirs[0]->0),
        QuestionView::Test(Test::HostFile, rules[1]),
        QuestionView::Test(Test::HostDirectory, dirs[1]->0),
        QuestionView::Test(Test::HostExecutable, dirs[1]->0),
        QuestionView::Version(HELPER_CANDIDATES[0]@),
        QuestionView::Version(HELPER_CANDIDATES[1]@),
    ]
}

/// **Law.** Probing ends: every question the setup probe asks is one of a short
/// list that depends on nothing but the sandbox, and none is asked twice.
pub proof fn probing_ends(known: KnownView, in_flatpak: bool, info: Option<Seq<char>>)
    ensures
        setup_known(known, in_flatpak, info) matches ProbeView::Ask(question)
            ==> setup_questions(info).contains(question) && !known.answers(question),
{
    reveal_with_fuel(candidate_known, 3);
    reveal_with_fuel(any_rule_known, 3);
    a_probe_asks_only_what_is_unknown(known, in_flatpak, info, None);
    let all = setup_questions(info);
    match setup_known(known, in_flatpak, info) {
        ProbeView::Ask(question) => {
            assert(question == all[0] || question == all[1] || question == all[2] || question
                == all[3] || question == all[4] || question == all[5] || question == all[6]
                || question == all[7] || question == all[8] || question == all[9] || question
                == all[10]);
        },
        ProbeView::Done(_) => {},
    }
}

/// **Law.** A rule we cannot see is not a rule that is missing: a host with a
/// current helper and a rules directory that is closed to us is set up.
pub proof fn an_unreadable_rule_counts_as_installed(
    host: HostView,
    info: Option<Seq<char>>,
    candidate: int,
)
    requires
        0 <= candidate < 2,
        helper_on(host, bundled_path(info, BUNDLED_HELPER@)) is Whitelisted,
        speaks_contract(
            (host.version)(
                helper_on(host, bundled_path(info, BUNDLED_HELPER@))->Whitelisted_0,
            ),
        ),
        (host.test)(Test::HostDirectory, directory(RULE_CANDIDATES[candidate]@)->0),
        !(host.test)(Test::HostExecutable, directory(RULE_CANDIDATES[candidate]@)->0),
    ensures
        setup_on(host, true, info) == HostSetup::Ready,
{
    every_rule_candidate_has_a_directory(candidate);
}

/// **Law.** Half a setup is none: without the rule, or without a helper at a
/// whitelisted path, the setup is still needed.
pub proof fn half_a_setup_is_none(host: HostView, info: Option<Seq<char>>)
    ensures
        !rule_on(host, RULE_CANDIDATES[0]@) && !rule_on(host, RULE_CANDIDATES[1]@) ==> setup_on(
            host,
            true,
            info,
        ) == HostSetup::Needed,
        !(host.test)(Test::HostExecutable, HELPER_CANDIDATES[0]@) && !(host.test)(
            Test::HostExecutable,
            HELPER_CANDIDATES[1]@,
        ) ==> setup_on(host, true, info) == HostSetup::Needed,
{
}

/// Every rule candidate has a directory to probe, or a rule closed to us could
/// never be told from one that is missing.
pub proof fn every_rule_candidate_has_a_directory(candidate: int)
    requires
        0 <= candidate < 2,
    ensures
        directory(RULE_CANDIDATES[candidate]@) is Some,
{
    reveal_strlit("/etc/polkit-1/rules.d/49-cosmic-nightlight.rules");
    reveal_strlit("/usr/share/polkit-1/rules.d/49-cosmic-nightlight.rules");
    let path = RULE_CANDIDATES[candidate]@;
    assert(path.last() == 's');
    assert(path.len() > 1);
    assert(without_tail(path) == path);
}

/// **Law.** Only a final answer is remembered: once the host was found ready it
/// stays ready, whatever is known, until it is forgotten; and no other answer is
/// kept at all.
pub proof fn only_a_ready_host_is_remembered(
    memory: HostMemoryView,
    known: KnownView,
    later: KnownView,
    in_flatpak: bool,
    info: Option<Seq<char>>,
)
    ensures
        ({
            let (probe, after) = host_setup_step(memory, known, in_flatpak, info);
            &&& probe == ProbeView::Done(HostSetup::Ready) ==> host_setup_step(
                after,
                later,
                in_flatpak,
                info,
            ) == (ProbeView::Done(HostSetup::Ready), after)
            &&& probe != ProbeView::Done(HostSetup::Ready) ==> after == memory
            &&& host_setup_step(forgotten(after), later, in_flatpak, info).0 == setup_known(
                later,
                in_flatpak,
                info,
            )
        }),
{
}

/// **Law.** A whitelisted helper is looked for once: after it was found no more
/// questions are asked, whatever is known, until it is forgotten. A fallback is
/// not kept at all, so a setup takes effect on the very next apply.
pub proof fn only_a_whitelisted_helper_is_remembered(
    memory: HostMemoryView,
    known: KnownView,
    later: KnownView,
    bundled: Option<Seq<char>>,
)
    requires
        memory.helper is None,
    ensures
        ({
            let (probe, after) = host_helper_step(memory, known, bundled);
            let found = helper_known(known, bundled);
            &&& found is Done && found->Done_0 is Whitelisted ==> host_helper_step(
                after,
                later,
                bundled,
            ) == (probe, after)
            &&& !(found is Done && found->Done_0 is Whitelisted) ==> after == memory
            &&& host_helper_step(forgotten(after), later, bundled).0 == host_helper_step(
                memory,
                later,
                bundled,
            ).0
        }),
{
}

/// **Law.** Outside a flatpak there is never anything to set up, and nothing on
/// the host is asked about it.
pub proof fn outside_a_flatpak_nothing_is_needed(
    memory: HostMemoryView,
    known: KnownView,
    info: Option<Seq<char>>,
)
    ensures
        host_setup_step(memory, known, false, info).0 == ProbeView::Done(HostSetup::Ready),
{
}

/// **Law.** The setup program runs only where it can help: in a flatpak, with no
/// override, on a host that is not ready, and never again once it has proved
/// ineffective.
pub proof fn the_setup_runs_only_where_it_helps(
    memory: HostMemoryView,
    known: KnownView,
    around: SurroundingsView,
)
    ensures
        ({
            let probe = program_step(memory, known, around).0;
            &&& (probe is Done && (probe->Done_0).1) ==> {
                &&& around.in_flatpak
                &&& around.helper_override is None
                &&& !memory.setup_ineffective
                &&& !memory.setup_ready
                &&& setup_known(known, true, around.flatpak_info) is Done
                &&& setup_known(known, true, around.flatpak_info) != ProbeView::Done(
                    HostSetup::Ready,
                )
            }
            &&& around.helper_override is Some ==> probe == ProbeView::Done(
                (around.helper_override->0, false),
            )
        }),
{
}

// ---------------------------------------------------------------------------
// What a privileged call's answers are worth
// ---------------------------------------------------------------------------
/// The helper's path on a host: what is remembered inside a flatpak, or what is
/// found there; outside one, the first candidate that exists.
pub open spec fn helper_path_on(
    memory: HostMemoryView,
    host: HostView,
    around: SurroundingsView,
) -> Seq<char> {
    if !around.in_flatpak {
        if !(host.test)(Test::LocalExists, HELPER_CANDIDATES[0]@) && (host.test)(
            Test::LocalExists,
            HELPER_CANDIDATES[1]@,
        ) {
            HELPER_CANDIDATES[1]@
        } else {
            HELPER_CANDIDATES[0]@
        }
    } else if memory.helper is Some {
        memory.helper->0
    } else {
        match helper_on(host, bundled_path(around.flatpak_info, BUNDLED_HELPER@)) {
            HostHelperView::Whitelisted(path) => path,
            HostHelperView::Bundled(path) => path,
            HostHelperView::Missing => SETUP_INSTALLS_TO@,
        }
    }
}

/// What a privileged call runs on a host, and whether that also installs.
pub open spec fn program_on(
    memory: HostMemoryView,
    host: HostView,
    around: SurroundingsView,
) -> (Seq<char>, bool) {
    let installer = bundled_path(around.flatpak_info, BUNDLED_SETUP@);
    if around.helper_override is Some {
        (around.helper_override->0, false)
    } else if !memory.setup_ready && setup_on(host, around.in_flatpak, around.flatpak_info)
        != HostSetup::Ready && !memory.setup_ineffective && installer is Some {
        (installer->0, true)
    } else {
        (helper_path_on(memory, host, around), false)
    }
}

/// The questions that working out a privileged call can ask.
pub open spec fn program_questions(info: Option<Seq<char>>) -> Seq<QuestionView> {
    setup_questions(info) + seq![
        QuestionView::Test(Test::LocalExists, HELPER_CANDIDATES[0]@),
        QuestionView::Test(Test::LocalExists, HELPER_CANDIDATES[1]@),
    ]
}

/// **Law.** What a privileged call is found to run is right for every host that
/// agrees with what is known.
pub proof fn a_settled_call_is_right(
    memory: HostMemoryView,
    known: KnownView,
    host: HostView,
    around: SurroundingsView,
)
    requires
        agrees(known, host),
    ensures
        program_step(memory, known, around).0 matches ProbeView::Done(program) ==> program
            == program_on(memory, host, around),
{
    reveal_with_fuel(candidate_known, 3);
    a_finished_probe_is_right(
        known,
        host,
        around.in_flatpak,
        around.flatpak_info,
        bundled_path(around.flatpak_info, BUNDLED_HELPER@),
    );
}

/// **Law.** Working out a privileged call ends: every question it asks is one of
/// a short list that depends on nothing but the sandbox, and none that has been
/// answered is asked.
pub proof fn working_out_a_call_ends(
    memory: HostMemoryView,
    known: KnownView,
    around: SurroundingsView,
)
    ensures
        program_step(memory, known, around).0 matches ProbeView::Ask(question)
            ==> program_questions(around.flatpak_info).contains(question) && !known.answers(
            question,
        ),
{
    reveal_with_fuel(candidate_known, 3);
    let info = around.flatpak_info;
    let all = program_questions(info);
    let first = setup_questions(info);
    probing_ends(known, around.in_flatpak, info);
    a_probe_asks_only_what_is_unknown(
        known,
        around.in_flatpak,
        info,
        bundled_path(info, BUNDLED_HELPER@),
    );
    assert forall|question: QuestionView| first.contains(question) implies all.contains(
        question,
    ) by {
        let i = first.index_of(question);
        assert(all[i] == question);
    }
    assert(all[0] == first[0] && all[1] == first[1] && all[2] == first[2]);
    match program_step(memory, known, around).0 {
        ProbeView::Ask(question) => {
            if !first.contains(question) {
                assert(question == all[0] || question == all[1] || question == all[2] || question
                    == all[11] || question == all[12]);
            }
        },
        ProbeView::Done(_) => {},
    }
}

} // verus!
