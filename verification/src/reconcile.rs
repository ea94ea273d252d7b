//! Bringing the screen in line with what is wanted: on schedule, when the user
//! asks, and through the one-time host setup.

use crate::apply::{
    applied, backing_off, backoff_in_force, clear_backoff, declined, discard_record_if_resumed,
    failure_earns, held_off, is_stale, moment_view, note_auth_refusal, note_failure, on_screen,
    record_applied, refused_since, resume_between, resumed_dir, resumed_memory, screen_or_neutral,
    ApplyMemory, ApplyMemoryView, ClockSample, ClockView, DiskWriteView, RuntimeDir, RuntimeDirView,
};
use crate::backoff::{backoff_round_trips, longest_delay, next_delay, Failure};
use crate::brightness::Brightness;
use crate::helper::{HelperOutcome, PKEXEC_DISMISSED, PKEXEC_NOT_AUTHORIZED};
use crate::host::{
    bundled_host_path, bundled_path, forget_host_helper, forgotten, HostMemory, Surroundings,
    BUNDLED_SETUP,
};
use crate::record::{applied_round_trips, TintState};
use crate::text::string_views;
use crate::time::{SystemTime, CLOCK_LIMIT, NANOS_PER_SECOND};
use vstd::prelude::*;

verus! {

// ---------------------------------------------------------------------------
// On schedule
// ---------------------------------------------------------------------------
/// Outcome of a reconcile.
#[derive(Clone, Copy, Debug, PartialEq, Eq, Structural)]
pub enum Reconcile {
    /// The displays already showed the wanted state; nothing was done.
    UpToDate,
    /// The wanted state was applied.
    Applied,
    /// Not applied: either the attempt failed, or an earlier failure is still
    /// being backed off from. Worth trying again later.
    Pending,
}

/// What a reconcile does next.
#[derive(Clone, Copy, Debug, PartialEq, Eq, Structural)]
pub enum ReconcileStep {
    /// Nothing: this is the outcome.
    Settled(Reconcile),
    /// Run the helper.
    Run,
}

/// What a reconcile does with the records as they are.
pub open spec fn next_step(
    memory: ApplyMemoryView,
    dir: RuntimeDirView,
    state: TintState,
    now: int,
) -> ReconcileStep {
    if on_screen(memory, dir) == Some(state) {
        ReconcileStep::Settled(Reconcile::UpToDate)
    } else if held_off(memory, dir, state, now) {
        ReconcileStep::Settled(Reconcile::Pending)
    } else {
        ReconcileStep::Run
    }
}

/// What the records are once the helper has run for `state`.
pub open spec fn memory_after(
    memory: ApplyMemoryView,
    dir: RuntimeDirView,
    state: TintState,
    outcome: HelperOutcome,
    now: int,
) -> ApplyMemoryView {
    match outcome {
        HelperOutcome::Applied => ApplyMemoryView {
            assumed: Some(state),
            backoff: None,
            ..memory
        },
        HelperOutcome::Failed(failure) => ApplyMemoryView {
            backoff: Some(failure_earns(memory, dir, state, failure, now)),
            ..memory
        },
    }
}

/// What the runtime directory holds once the helper has run for `state`.
pub open spec fn dir_after(
    memory: ApplyMemoryView,
    dir: RuntimeDirView,
    state: TintState,
    outcome: HelperOutcome,
    now: int,
) -> RuntimeDirView {
    match outcome {
        HelperOutcome::Applied => dir.after(DiskWriteView::RecordApplied(state)).after(
            DiskWriteView::RemoveBackoff,
        ),
        HelperOutcome::Failed(failure) => dir.after(
            DiskWriteView::RecordBackoff(failure_earns(memory, dir, state, failure, now)),
        ),
    }
}

/// Begins bringing the displays in line with `state`, doing nothing if they
/// already show it. This is how a schedule boundary reaches the screen. A resume
/// from suspend is noticed first, since it invalidates the record.
pub fn reconcile(
    memory: &mut ApplyMemory,
    dir: &mut RuntimeDir,
    state: TintState,
    now: ClockSample,
    modified: Option<SystemTime>,
) -> (step: ReconcileStep)
    ensures
        final(memory)@ == resumed_memory(old(memory)@, now@, moment_view(modified)),
        final(dir)@ == resumed_dir(old(memory)@, old(dir)@, now@, moment_view(modified)),
        step == next_step(final(memory)@, final(dir)@, state, now@.wall),
{
    discard_record_if_resumed(memory, dir, now, modified);
    if applied(memory, dir) == Some(state) {
        return ReconcileStep::Settled(Reconcile::UpToDate);
    }
    if backing_off(memory, dir, state, now.wall) {
        return ReconcileStep::Settled(Reconcile::Pending);
    }
    ReconcileStep::Run
}

/// Records what came of running the helper for `state`.
fn record_outcome(
    memory: &mut ApplyMemory,
    dir: &mut RuntimeDir,
    state: TintState,
    outcome: HelperOutcome,
    now: SystemTime,
) -> (landed: bool)
    requires
        now@ + longest_delay(Failure::Auth) < CLOCK_LIMIT,
    ensures
        landed == (outcome == HelperOutcome::Applied),
        final(memory)@ == memory_after(old(memory)@, old(dir)@, state, outcome, now@),
        final(dir)@ == dir_after(old(memory)@, old(dir)@, state, outcome, now@),
{
    match outcome {
        HelperOutcome::Applied => {
            record_applied(memory, dir, state);
            clear_backoff(memory, dir);
            true
        },
        HelperOutcome::Failed(failure) => {
            note_failure(memory, dir, state, failure, now);
            false
        },
    }
}

/// Ends a reconcile that ran the helper.
pub fn reconcile_finished(
    memory: &mut ApplyMemory,
    dir: &mut RuntimeDir,
    state: TintState,
    outcome: HelperOutcome,
    now: SystemTime,
) -> (result: Reconcile)
    requires
        now@ + longest_delay(Failure::Auth) < CLOCK_LIMIT,
    ensures
        result == (if outcome == HelperOutcome::Applied {
            Reconcile::Applied
        } else {
            Reconcile::Pending
        }),
        final(memory)@ == memory_after(old(memory)@, old(dir)@, state, outcome, now@),
        final(dir)@ == dir_after(old(memory)@, old(dir)@, state, outcome, now@),
{
    if record_outcome(memory, dir, state, outcome, now) {
        Reconcile::Applied
    } else {
        Reconcile::Pending
    }
}

// ---------------------------------------------------------------------------
// When the user asks
// ---------------------------------------------------------------------------
/// Whether to run the helper for a change the user asked for at `requested_at`,
/// whether or not the record claims the screen shows it already.
///
/// A person acting is worth more than a timer, so the backoff does not count
/// here. But a request that was already queued when a prompt was refused was
/// made before there was anything to see, so that refusal answers it.
pub fn apply_now(memory: &ApplyMemory, dir: &RuntimeDir, requested_at: SystemTime) -> (run: bool)
    ensures
        run == !declined(memory@, dir@, requested_at@),
{
    !refused_since(memory, dir, requested_at)
}

/// Ends an apply the user asked for, and says whether it landed.
pub fn apply_finished(
    memory: &mut ApplyMemory,
    dir: &mut RuntimeDir,
    state: TintState,
    outcome: HelperOutcome,
    now: SystemTime,
) -> (landed: bool)
    requires
        now@ + longest_delay(Failure::Auth) < CLOCK_LIMIT,
    ensures
        landed == (outcome == HelperOutcome::Applied),
        final(memory)@ == memory_after(old(memory)@, old(dir)@, state, outcome, now@),
        final(dir)@ == dir_after(old(memory)@, old(dir)@, state, outcome, now@),
{
    record_outcome(memory, dir, state, outcome, now)
}

/// Work queued for the apply thread.
#[derive(Clone, Copy, Debug, PartialEq, Eq, Structural)]
pub enum Request {
    /// A change the user asked for: apply it regardless of the record.
    Force {
        state: TintState,
        brightness: Brightness,
        /// When the user asked, stamped as the request is queued rather than as
        /// it runs: the two can be a whole password prompt apart.
        requested_at: SystemTime,
    },
    /// A scheduled change: apply it only if the screen doesn't already match.
    Reconcile { state: TintState, brightness: Brightness },
}

/// Which of the requests that have piled up to run: only the most recent
/// matters, since the earlier ones describe states the user has already moved on
/// from. `newer` are the ones behind `first`, oldest first.
pub fn coalesce<T>(first: T, newer: Vec<T>) -> (request: T)
    ensures
        request == (if newer.len() == 0 {
            first
        } else {
            newer@.last()
        }),
{
    let mut newer = newer;
    match newer.pop() {
        Some(last) => last,
        None => first,
    }
}

// ---------------------------------------------------------------------------
// The host setup
// ---------------------------------------------------------------------------
/// What is said when the setup never got as far as asking, because the user had
/// already turned down a prompt it would only have repeated.
pub const PROMPT_DISMISSED: &'static str = "the password prompt was dismissed";

pub const FLATPAK_ONLY: &'static str = "the host setup applies to the flatpak build only";

pub const NO_SETUP_PROGRAM: &'static str = "could not find the setup program inside the flatpak";

pub const NOT_AUTHORIZED: &'static str =
    "authentication failed, or the setup could not be run on the host";

/// The setup program's path on the host, or why the setup cannot be run.
pub fn setup_program(around: &Surroundings) -> (script: Result<String, String>)
    ensures
        script matches Ok(path) ==> around.in_flatpak && bundled_path(
            around@.flatpak_info,
            BUNDLED_SETUP@,
        ) == Some(path@),
        script matches Err(message) ==> (!around.in_flatpak && message@ == FLATPAK_ONLY@) || (
        around.in_flatpak && bundled_path(around@.flatpak_info, BUNDLED_SETUP@) is None && message@
            == NO_SETUP_PROGRAM@),
{
    if !around.in_flatpak {
        return Err(FLATPAK_ONLY.to_owned());
    }
    match bundled_host_path(&around.flatpak_info, BUNDLED_SETUP) {
        Some(path) => Ok(path),
        None => Err(NO_SETUP_PROGRAM.to_owned()),
    }
}

/// What `flatpak-spawn` is told in order to run the one-time host setup, which
/// costs exactly one password prompt, or why not. `requested_at` is when the
/// user asked: whoever held the lock meanwhile may have been turned down, and
/// the setup would only ask the same question again.
pub fn run_host_setup(
    memory: &ApplyMemory,
    dir: &RuntimeDir,
    script: &str,
    requested_at: SystemTime,
) -> (command: Result<Vec<String>, String>)
    ensures
        command is Err <==> declined(memory@, dir@, requested_at@),
        command matches Ok(args) ==> string_views(args@) == seq!["--host"@, "pkexec"@, script@],
        command matches Err(message) ==> message@ == PROMPT_DISMISSED@,
{
    if refused_since(memory, dir, requested_at) {
        return Err(PROMPT_DISMISSED.to_owned());
    }
    let mut args: Vec<String> = Vec::new();
    args.push("--host".to_owned());
    args.push("pkexec".to_owned());
    args.push(script.to_owned());
    assert(string_views(args@) =~= seq!["--host"@, "pkexec"@, script@]);
    Ok(args)
}

/// How the setup ended, with its own words for it.
#[derive(Debug)]
pub enum SetupExit {
    /// It could not be launched; the text says why.
    NotLaunched(String),
    /// It ended, with an exit code unless a signal ended it; the text describes
    /// how.
    Ended(Option<i32>, String),
}

/// Whether an exit code is pkexec reporting that the user declined.
pub open spec fn is_refusal(code: Option<i32>) -> bool {
    code == Some(PKEXEC_DISMISSED) || code == Some(PKEXEC_NOT_AUTHORIZED)
}

/// Why the setup did not succeed, if it didn't.
pub open spec fn setup_complaint(exit: SetupExit) -> Option<Seq<char>> {
    match exit {
        SetupExit::NotLaunched(error) => Some("could not reach the host ("@ + error@ + ")"@),
        SetupExit::Ended(code, status) => if code == Some(0i32) {
            None
        } else if code == Some(PKEXEC_DISMISSED) {
            Some(PROMPT_DISMISSED@)
        } else if code == Some(PKEXEC_NOT_AUTHORIZED) {
            Some(NOT_AUTHORIZED@)
        } else {
            Some("the setup exited with "@ + status@)
        },
    }
}

/// The refusal the setup's own prompt earns.
pub open spec fn setup_refusal(memory: ApplyMemoryView, dir: RuntimeDirView, now: int) -> crate::backoff::BackoffView {
    failure_earns(memory, dir, screen_or_neutral(memory, dir), Failure::Auth, now)
}

/// Ends a run of the host setup. Whatever is installed may have moved, so the
/// host is forgotten; a success clears the backoff, and a refusal is recorded,
/// which stops the applies queued behind it from spending it again.
pub fn host_setup_finished(
    host: &mut HostMemory,
    memory: &mut ApplyMemory,
    dir: &mut RuntimeDir,
    exit: &SetupExit,
    now: SystemTime,
) -> (result: Result<(), String>)
    requires
        now@ + longest_delay(Failure::Auth) < CLOCK_LIMIT,
    ensures
        result is Ok <==> setup_complaint(*exit) is None,
        result matches Err(message) ==> Some(message@) == setup_complaint(*exit),
        final(host)@ == (if exit is NotLaunched {
            old(host)@
        } else {
            forgotten(old(host)@)
        }),
        exit is Ended && exit->Ended_0 == Some(0i32) ==> {
            &&& final(memory)@ == (ApplyMemoryView { backoff: None, ..old(memory)@ })
            &&& final(dir)@ == old(dir)@.after(DiskWriteView::RemoveBackoff)
        },
        exit is Ended && is_refusal(exit->Ended_0) ==> {
            let refusal = setup_refusal(old(memory)@, old(dir)@, now@);
            &&& final(memory)@ == (ApplyMemoryView { backoff: Some(refusal), ..old(memory)@ })
            &&& final(dir)@ == old(dir)@.after(DiskWriteView::RecordBackoff(refusal))
        },
        exit is NotLaunched || (exit->Ended_0 != Some(0i32) && !is_refusal(exit->Ended_0)) ==> {
            &&& final(memory)@ == old(memory)@
            &&& final(dir)@ == old(dir)@
        },
{
    match exit {
        SetupExit::NotLaunched(error) => Err(
            "could not reach the host (".to_owned().concat(error.as_str()).concat(")"),
        ),
        SetupExit::Ended(code, status) => {
            forget_host_helper(host);
            match *code {
                Some(0) => {
                    clear_backoff(memory, dir);
                    Ok(())
                },
                Some(PKEXEC_DISMISSED) => {
                    note_auth_refusal(memory, dir, now);
                    Err(PROMPT_DISMISSED.to_owned())
                },
                Some(PKEXEC_NOT_AUTHORIZED) => {
                    note_auth_refusal(memory, dir, now);
                    Err(NOT_AUTHORIZED.to_owned())
                },
                _ => Err("the setup exited with ".to_owned().concat(status.as_str())),
            }
        },
    }
}

// ---------------------------------------------------------------------------
// Between processes
// ---------------------------------------------------------------------------
/// Whether a runtime directory that is out of reach reads as empty.
pub open spec fn is_readable(dir: RuntimeDirView) -> bool {
    dir.reachable || (dir.applied is None && dir.backoff is None)
}

/// Whether every wait a process holds is a whole number of seconds.
pub open spec fn waits_whole_seconds(memory: ApplyMemoryView) -> bool {
    memory.backoff is Some ==> (memory.backoff->0).delay % NANOS_PER_SECOND as int == 0
}

/// **Law.** A reconcile does what the records call for and no more. With the
/// records as they are once a resume has been looked for, it finds nothing to do
/// exactly if the screen shows the wanted state, holds off if an earlier failure
/// still stands against it, and otherwise runs the helper. If the helper lands,
/// the state is on screen, nothing is backed off from, and the next reconcile for
/// it has nothing to do, unless the machine resumes in between. If it fails, what
/// is on screen is what was.
pub proof fn a_reconcile_settles_the_screen(
    memory: ApplyMemoryView,
    dir: RuntimeDirView,
    state: TintState,
    failure: Failure,
    at: int,
    clocks: ClockView,
    modified: Option<int>,
)
    requires
        is_readable(dir),
        !is_stale(memory.clocks, clocks, modified),
    ensures
        ({
            let step = next_step(memory, dir, state, at);
            let shown = on_screen(memory, dir);
            let applied = memory_after(memory, dir, state, HelperOutcome::Applied, at);
            let recorded = dir_after(memory, dir, state, HelperOutcome::Applied, at);
            let failed = HelperOutcome::Failed(failure);
            &&& step == ReconcileStep::Settled(Reconcile::UpToDate) <==> shown == Some(state)
            &&& step == ReconcileStep::Settled(Reconcile::Pending) <==> shown != Some(state)
                && held_off(memory, dir, state, at)
            &&& step == ReconcileStep::Run <==> shown != Some(state) && !held_off(
                memory,
                dir,
                state,
                at,
            )
            &&& on_screen(applied, recorded) == Some(state)
            &&& backoff_in_force(applied, recorded) is None
            &&& next_step(
                resumed_memory(applied, clocks, modified),
                resumed_dir(applied, recorded, clocks, modified),
                state,
                clocks.wall,
            ) == ReconcileStep::Settled(Reconcile::UpToDate)
            &&& on_screen(
                memory_after(memory, dir, state, failed, at),
                dir_after(memory, dir, state, failed, at),
            ) == shown
        }),
{
    applied_round_trips(state);
}

/// **Law.** One apply settles every process: once a state has been applied, a
/// process that reads the shared record finds nothing left to do for it, at any
/// later time, and flickers the screen no second time.
pub proof fn one_apply_settles_every_process(
    memory: ApplyMemoryView,
    dir: RuntimeDirView,
    state: TintState,
    at: int,
    other: ApplyMemoryView,
    now: int,
)
    requires
        dir.reachable,
        !other.record_unusable,
    ensures
        next_step(
            other,
            dir_after(memory, dir, state, HelperOutcome::Applied, at),
            state,
            now,
        ) == ReconcileStep::Settled(Reconcile::UpToDate),
{
    applied_round_trips(state);
}

/// **Law.** A process never applies twice what it has applied: with or without a
/// runtime directory, and even where its record cannot be written.
pub proof fn an_applied_state_stays_applied(
    memory: ApplyMemoryView,
    dir: RuntimeDirView,
    state: TintState,
    at: int,
    now: int,
)
    requires
        is_readable(dir),
    ensures
        next_step(
            memory_after(memory, dir, state, HelperOutcome::Applied, at),
            dir_after(memory, dir, state, HelperOutcome::Applied, at),
            state,
            now,
        ) == ReconcileStep::Settled(Reconcile::UpToDate),
        next_step(
            (ApplyMemoryView {
                record_unusable: true,
                ..memory_after(memory, dir, state, HelperOutcome::Applied, at)
            }),
            dir,
            state,
            now,
        ) == ReconcileStep::Settled(Reconcile::UpToDate),
{
    applied_round_trips(state);
}

/// **Law.** One refusal holds off every process: after a prompt was turned down,
/// no process runs the helper on schedule, for any state, for the best part of
/// an hour.
pub proof fn one_refusal_holds_off_every_process(
    memory: ApplyMemoryView,
    dir: RuntimeDirView,
    refused: TintState,
    at: int,
    other: ApplyMemoryView,
    state: TintState,
    now: int,
)
    requires
        dir.reachable,
        0 <= at,
        at + longest_delay(Failure::Auth) < CLOCK_LIMIT,
        at <= now <= at + 3_599 * NANOS_PER_SECOND,
    ensures
        next_step(
            other,
            dir_after(memory, dir, refused, HelperOutcome::Failed(Failure::Auth), at),
            state,
            now,
        ) != ReconcileStep::Run,
{
    backoff_round_trips(failure_earns(memory, dir, refused, Failure::Auth, at));
}

/// **Law.** One refusal answers everything queued before it, in every process,
/// whatever it was for. The shared record holds whole seconds, so it speaks for
/// the requests made up to the second the refusal came in.
pub proof fn one_refusal_answers_every_queued_request(
    memory: ApplyMemoryView,
    dir: RuntimeDirView,
    refused: TintState,
    at: int,
    other: ApplyMemoryView,
    requested_at: int,
)
    requires
        dir.reachable,
        0 <= at,
        at + longest_delay(Failure::Auth) < CLOCK_LIMIT,
        requested_at <= at / (NANOS_PER_SECOND as int) * NANOS_PER_SECOND,
    ensures
        declined(
            other,
            dir_after(memory, dir, refused, HelperOutcome::Failed(Failure::Auth), at),
            requested_at,
        ),
{
    backoff_round_trips(failure_earns(memory, dir, refused, Failure::Auth, at));
}

/// **Law.** A process on its own, with no record to share, answers by a refusal
/// everything queued before it, to the nanosecond, and nothing after.
pub proof fn an_unshared_refusal_answers_to_the_moment(
    memory: ApplyMemoryView,
    dir: RuntimeDirView,
    refused: TintState,
    at: int,
    requested_at: int,
)
    requires
        !dir.reachable,
        is_readable(dir),
    ensures
        declined(
            memory_after(memory, dir, refused, HelperOutcome::Failed(Failure::Auth), at),
            dir_after(memory, dir, refused, HelperOutcome::Failed(Failure::Auth), at),
            requested_at,
        ) <==> requested_at <= at,
{
}

/// **Law.** Every process climbs one ladder: when the same failure repeats, the
/// wait grows from the last one recorded, whichever process recorded it.
pub proof fn every_process_climbs_one_ladder(
    memory: ApplyMemoryView,
    dir: RuntimeDirView,
    state: TintState,
    failure: Failure,
    at: int,
    other: ApplyMemoryView,
    now: int,
)
    requires
        dir.reachable,
        waits_whole_seconds(memory),
        0 <= at,
        at + longest_delay(Failure::Auth) < CLOCK_LIMIT,
    ensures
        ({
            let first = failure_earns(memory, dir, state, failure, at);
            let after = dir_after(memory, dir, state, HelperOutcome::Failed(failure), at);
            failure_earns(other, after, state, failure, now).delay == next_delay(
                Some(first.delay),
                failure,
            )
        }),
{
    backoff_round_trips(failure_earns(memory, dir, state, failure, at));
    waits_stay_whole_seconds(memory, dir, state, HelperOutcome::Failed(failure), at);
}

/// **Law.** A request made after a refusal is the user trying again, and no
/// process takes the refusal for its answer.
pub proof fn a_later_request_is_not_answered(
    memory: ApplyMemoryView,
    dir: RuntimeDirView,
    refused: TintState,
    at: int,
    other: ApplyMemoryView,
    requested_at: int,
)
    requires
        dir.reachable,
        waits_whole_seconds(memory),
        0 <= at,
        at + longest_delay(Failure::Auth) < CLOCK_LIMIT,
        requested_at > at,
    ensures
        !declined(
            other,
            dir_after(memory, dir, refused, HelperOutcome::Failed(Failure::Auth), at),
            requested_at,
        ),
{
    let refusal = failure_earns(memory, dir, refused, Failure::Auth, at);
    backoff_round_trips(refusal);
    waits_stay_whole_seconds(
        memory,
        dir,
        refused,
        HelperOutcome::Failed(Failure::Auth),
        at,
    );
}

/// **Law.** Every wait is a whole number of seconds, whatever comes of the
/// helper, so nothing but the moment itself is lost in the shared record.
pub proof fn waits_stay_whole_seconds(
    memory: ApplyMemoryView,
    dir: RuntimeDirView,
    state: TintState,
    outcome: HelperOutcome,
    now: int,
)
    requires
        waits_whole_seconds(memory),
    ensures
        waits_whole_seconds(memory_after(memory, dir, state, outcome, now)),
{
}

/// **Law.** A success clears the backoff: afterwards this process holds nothing
/// off, and neither does any that was not backing off on its own account.
pub proof fn a_success_clears_the_backoff(
    memory: ApplyMemoryView,
    dir: RuntimeDirView,
    state: TintState,
    at: int,
    other: ApplyMemoryView,
    wanted: TintState,
    now: int,
)
    requires
        is_readable(dir),
        other.backoff is None,
    ensures
        ({
            let after = dir_after(memory, dir, state, HelperOutcome::Applied, at);
            &&& !held_off(
                memory_after(memory, dir, state, HelperOutcome::Applied, at),
                after,
                wanted,
                now,
            )
            &&& !held_off(other, after, wanted, now)
        }),
{
}

/// **Law.** After a resume the tint is pushed again: unless something was
/// recorded since, the screen is unknown and no state counts as already shown.
/// A record written since the resume is kept, so only the first process to
/// notice acts.
pub proof fn a_resume_pushes_the_tint_again(
    memory: ApplyMemoryView,
    dir: RuntimeDirView,
    clocks: ClockView,
    modified: Option<int>,
    state: TintState,
    now: int,
)
    requires
        is_readable(dir),
        resume_between(memory.clocks, clocks) is Some,
    ensures
        ({
            let after = resumed_memory(memory, clocks, modified);
            let cleaned = resumed_dir(memory, dir, clocks, modified);
            let resumed_at = resume_between(memory.clocks, clocks)->0;
            if modified is Some && modified->0 >= resumed_at {
                cleaned == dir && on_screen(after, cleaned) == on_screen(memory, dir)
            } else {
                on_screen(after, cleaned) is None && next_step(after, cleaned, state, now)
                    != ReconcileStep::Settled(Reconcile::UpToDate)
            }
        }),
{
}

/// **Law.** Awake, the clocks run together and nothing is discarded: two
/// readings whose gaps differ by less than the allowance show no resume.
pub proof fn staying_awake_discards_nothing(
    then: ClockView,
    now: ClockView,
    modified: Option<int>,
)
    requires
        then.monotonic <= now.monotonic,
        (now.wall - then.wall) - (now.monotonic - then.monotonic)
            < crate::apply::SUSPEND_SKEW_SECS * NANOS_PER_SECOND,
    ensures
        !is_stale(Some(then), now, modified),
        !is_stale(None, now, modified),
{
}

} // verus!
