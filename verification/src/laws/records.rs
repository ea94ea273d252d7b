//! The records the processes share, and what they decide by them.

use crate::apply::{
    applied, backing_off, backoff_view, backoff_write_failed, clear_backoff, current_backoff,
    discard_record_if_resumed, forget_applied, note_auth_refusal, note_failure,
    record_applied, record_write_failed, recorded_on_disk, refused_since, ApplyMemory, ClockSample,
    DiskWriteView,
    RuntimeDir,
};
use crate::backoff::{
    answers_a_request_from, backoff_round_trips, covers, format_backoff, holds, parse_backoff,
    retry_delay, Backoff, Failure,
};
use crate::helper::HelperOutcome;
use crate::host::{HostMemory, Surroundings};
use crate::reconcile::{
    apply_finished, apply_now, coalesce, host_setup_finished, reconcile, reconcile_finished,
    run_host_setup, setup_program, Reconcile, ReconcileStep, SetupExit,
};
use crate::record::{applied_round_trips, format_applied, parse_applied, TintState};
use crate::text::{string_views, trim};
use crate::time::{Duration, SystemTime};
use vstd::prelude::*;

verus! {

/// A number of seconds in nanoseconds.
pub open spec fn seconds(n: int) -> int {
    n * 1_000_000_000
}

// ---------------------------------------------------------------------------
// Waiting
// ---------------------------------------------------------------------------
/// **Law.** A wait doubles the last one, and never leaves its own range: from five
/// seconds to five minutes after a fault, from one hour to six after a refusal.
/// The first wait is the shortest.
pub proof fn a_wait_doubles_within_its_range(
    previous: Option<Duration>,
    failure: Failure,
    delay: Duration,
)
    requires
        call_ensures(retry_delay, (previous, failure), delay),
    ensures
        ({
            let shortest = if failure == Failure::Auth {
                seconds(3_600)
            } else {
                seconds(5)
            };
            let longest = if failure == Failure::Auth {
                seconds(21_600)
            } else {
                seconds(300)
            };
            &&& shortest <= delay@ <= longest
            &&& previous is None ==> delay@ == shortest
            &&& previous matches Some(last) ==> {
                &&& shortest <= 2 * last@ <= longest ==> delay@ == 2 * last@
                &&& 2 * last@ < shortest ==> delay@ == shortest
                &&& 2 * last@ > longest ==> delay@ == longest
            }
        }),
{
}

/// **Law.** A backoff stands against a state until its deadline, unless the
/// deadline is further off than the longest wait there is. A fault stands against
/// its own state alone, a refusal against every one.
pub proof fn a_backoff_stands_until_its_deadline(
    backoff: Backoff,
    state: TintState,
    now: SystemTime,
    covered: bool,
    held: bool,
)
    requires
        call_ensures(covers, (&backoff, state), covered),
        call_ensures(holds, (&backoff, state, now), held),
    ensures
        covered <==> backoff.failure == Failure::Auth || backoff.state == state,
        held <==> covered && now@ < backoff.retry_at@ <= now@ + seconds(21_600),
{
}

/// **Law.** A refusal, and nothing else, answers a request: one that was made no
/// later than the refusal, which came one wait before its deadline.
pub proof fn a_refusal_answers_what_was_asked_before(
    backoff: Backoff,
    requested_at: SystemTime,
    answered: bool,
)
    requires
        call_ensures(answers_a_request_from, (&backoff, requested_at), answered),
    ensures
        answered <==> backoff.failure == Failure::Auth && requested_at@ + backoff.delay@
            <= backoff.retry_at@,
{
}

// ---------------------------------------------------------------------------
// Texts
// ---------------------------------------------------------------------------
/// **Law.** A tint state is written so that it reads back, with white space around
/// it or without.
pub proof fn a_written_state_reads_back(
    state: TintState,
    text: String,
    record: &str,
    read: Option<TintState>,
)
    requires
        call_ensures(format_applied, (state,), text),
        call_ensures(parse_applied, (record,), read),
        trim(record@) == text@,
    ensures
        read == Some(state),
        state is None ==> text@ == "off"@,
{
    applied_round_trips(state);
    crate::record::lemma_applied_text(state);
    crate::text::lemma_trim_unspaced(text@);
}

/// **Law.** A backoff is written so that its state, its kind and its times to the
/// second read back.
pub proof fn a_written_backoff_reads_back(
    backoff: Backoff,
    text: String,
    record: &str,
    read: Option<Backoff>,
)
    requires
        call_ensures(format_backoff, (&backoff,), text),
        call_ensures(parse_backoff, (record,), read),
        record@ == text@,
        0 <= backoff.retry_at@ < seconds(9_223_372_036_854_775_808),
        0 <= backoff.delay@ < seconds(18_446_744_073_709_551_616),
    ensures
        read matches Some(b) && b.state == backoff.state && b.failure == backoff.failure
            && b.retry_at@ <= backoff.retry_at@ < b.retry_at@ + seconds(1) && b.delay@
            <= backoff.delay@ < b.delay@ + seconds(1) && b.retry_at@ % seconds(1) == 0 && b.delay@
            % seconds(1) == 0,
{
    backoff_round_trips(backoff@);
}

// ---------------------------------------------------------------------------
// What is on screen
// ---------------------------------------------------------------------------
/// **Law.** What is on screen is what the shared record says, where it can be read
/// and has not failed to be written; otherwise what this process believes.
pub proof fn the_shared_record_says_what_is_on_screen(
    memory: ApplyMemory,
    dir: RuntimeDir,
    record: &str,
    read: Option<TintState>,
    recorded: Option<TintState>,
    shown: Option<TintState>,
)
    requires
        call_ensures(recorded_on_disk, (&memory, &dir), recorded),
        call_ensures(applied, (&memory, &dir), shown),
        call_ensures(parse_applied, (record,), read),
        dir.applied is Some ==> record@ == (dir.applied->0)@,
    ensures
        dir.applied is Some && !memory.record_unusable ==> recorded == read,
        dir.applied is None || memory.record_unusable ==> recorded is None,
        dir.applied is Some && !memory.record_unusable && read is Some ==> shown == read,
        dir.applied is None || memory.record_unusable || read is None ==> shown == memory.assumed,
{
}

/// **Law.** A process starts out believing the screen neutral, with nothing to back
/// off from and nothing remembered about the host.
pub proof fn a_process_starts_with_a_neutral_screen(memory: ApplyMemory, host: HostMemory)
    requires
        call_ensures(ApplyMemory::fresh, (), memory),
        call_ensures(HostMemory::fresh, (), host),
    ensures
        memory.assumed == Some(None::<u32>),
        !memory.record_unusable,
        memory.backoff is None,
        memory.clocks is None,
        host.helper is None,
        !host.setup_ready,
        !host.setup_ineffective,
{
}

/// **Law.** Recording a state is believed by this process and written for the
/// others, where there is somewhere to write it; nothing else changes.
pub proof fn a_recorded_state_is_believed_and_shared(
    memory: &mut ApplyMemory,
    dir: &mut RuntimeDir,
    state: TintState,
    text: String,
)
    requires
        call_ensures(record_applied, (memory, dir, state), ()),
        call_ensures(format_applied, (state,), text),
    ensures
        final(memory).assumed == Some(state),
        final(memory).record_unusable == old(memory).record_unusable,
        final(memory)@.backoff == old(memory)@.backoff,
        final(memory)@.clocks == old(memory)@.clocks,
        final(dir)@.backoff == old(dir)@.backoff,
        final(dir).reachable == old(dir).reachable,
        old(dir).reachable ==> final(dir)@.applied == Some(text@) && final(dir)@.pending == old(dir)@.pending.push(DiskWriteView::RecordApplied(state)),
        !old(dir).reachable ==> final(dir)@ == old(dir)@,
{
}

/// **Law.** Forgetting what is on screen leaves it unknown to this process and
/// takes the shared record away; a record that could not be written is not read
/// again.
pub proof fn a_forgotten_state_is_unknown(
    memory: &mut ApplyMemory,
    dir: &mut RuntimeDir,
    other: &mut ApplyMemory,
)
    requires
        call_ensures(forget_applied, (memory, dir), ()),
        call_ensures(record_write_failed, (other,), ()),
    ensures
        final(memory).assumed is None,
        final(memory)@.backoff == old(memory)@.backoff,
        old(dir).reachable ==> final(dir)@.applied is None && final(dir)@.pending == old(dir)@.pending.push(DiskWriteView::RemoveApplied),
        final(dir)@.backoff == old(dir)@.backoff,
        final(other).record_unusable,
        final(other).assumed == old(other).assumed,
        final(other)@.backoff == old(other)@.backoff,
{
}

// ---------------------------------------------------------------------------
// Suspends
// ---------------------------------------------------------------------------
/// **Law.** The record is discarded exactly where the wall clock ran ahead of the
/// monotonic one by half a minute or more since the last reconcile, by however
/// much, and nothing was recorded since the resume: the moment that lies as far
/// back as the monotonic clock has run. The reading is kept for the next time.
pub proof fn a_gap_between_the_clocks_is_a_resume(
    memory: &mut ApplyMemory,
    dir: &mut RuntimeDir,
    now: ClockSample,
    modified: Option<SystemTime>,
    discarded: bool,
)
    requires
        call_ensures(discard_record_if_resumed, (memory, dir, now, modified), discarded),
    ensures
        old(memory)@.clocks is None ==> !discarded,
        old(memory)@.clocks matches Some(then) ==> then.monotonic <= now.monotonic@ ==> {
            let ran = now.monotonic@ - then.monotonic;
            let ahead = (now.wall@ - then.wall) - ran;
            let since = modified is Some && (modified->0)@ >= now.wall@ - ran;
            discarded <==> ahead >= seconds(30) && !since
        },
        final(memory)@.clocks == Some(now@),
        discarded ==> final(memory).assumed is None,
        discarded && old(dir).reachable ==> final(dir)@.applied is None && final(dir)@.pending
            == old(dir)@.pending.push(DiskWriteView::RemoveApplied),
        !discarded ==> final(memory).assumed == old(memory).assumed && final(dir)@ == old(dir)@,
        final(memory).record_unusable == old(memory).record_unusable,
        final(memory)@.backoff == old(memory)@.backoff,
        final(dir)@.backoff == old(dir)@.backoff,
{
}

/// **Law.** The moment of a resume, for all readings of the clocks: there was one
/// exactly where the wall clock ran ahead of the monotonic one by half a minute or
/// more, and it was as long ago as the monotonic clock has run.
pub proof fn a_resume_is_seen_however_long_the_sleep(
    then: crate::apply::ClockView,
    now: crate::apply::ClockView,
)
    requires
        then.monotonic <= now.monotonic,
    ensures
        ({
            let ran = now.monotonic - then.monotonic;
            &&& (now.wall - then.wall) - ran >= seconds(30) ==> crate::apply::resume_between(
                Some(then),
                now,
            ) == Some(now.wall - ran)
            &&& (now.wall - then.wall) - ran < seconds(30) ==> crate::apply::resume_between(
                Some(then),
                now,
            ) is None
        }),
{
}

// ---------------------------------------------------------------------------
// Backing off
// ---------------------------------------------------------------------------
/// **Law.** The backoff in force is the shared one where it can be read, else this
/// process's own; a state is held off, and a request answered, by that one alone.
pub proof fn the_shared_backoff_is_in_force(
    memory: ApplyMemory,
    dir: RuntimeDir,
    record: &str,
    read: Option<Backoff>,
    backoff: Option<Backoff>,
    state: TintState,
    now: SystemTime,
    held: bool,
    requested_at: SystemTime,
    refused: bool,
)
    requires
        call_ensures(current_backoff, (&memory, &dir), backoff),
        call_ensures(parse_backoff, (record,), read),
        dir.backoff is Some ==> record@ == (dir.backoff->0)@,
        call_ensures(backing_off, (&memory, &dir, state, now), held),
        call_ensures(refused_since, (&memory, &dir, requested_at), refused),
    ensures
        dir.backoff is Some && read is Some ==> backoff_view(backoff) == backoff_view(read),
        dir.backoff is None || read is None ==> backoff_view(backoff) == backoff_view(
            memory.backoff,
        ),
        held <==> (backoff matches Some(b) && (b.failure == Failure::Auth || b.state == state)
            && now@ < b.retry_at@ <= now@ + seconds(21_600)),
        refused <==> (backoff matches Some(b) && b.failure == Failure::Auth && requested_at@
            + b.delay@ <= b.retry_at@),
{
}

/// **Law.** A failure is recorded with what failed, how, and the wait it earns,
/// counted from now: the wait after the last one in force that speaks to the same
/// state. It is this process's own and, where there is somewhere to write it,
/// everyone's. What is on screen is not touched.
pub proof fn a_failure_is_recorded_with_its_wait(
    memory: &mut ApplyMemory,
    dir: &mut RuntimeDir,
    state: TintState,
    failure: Failure,
    now: SystemTime,
    delay: Duration,
    before: Option<Backoff>,
    last: Option<Duration>,
    wait: Duration,
)
    requires
        call_ensures(note_failure, (memory, dir, state, failure, now), delay),
        call_ensures(current_backoff, (&*old(memory), &*old(dir)), before),
        (before matches Some(b) && (b.failure == Failure::Auth || b.state == state)) ==> (last
            matches Some(d) && d@ == (before->0).delay@),
        !(before matches Some(b) && (b.failure == Failure::Auth || b.state == state))
            ==> last is None,
        call_ensures(retry_delay, (last, failure), wait),
    ensures
        delay@ == wait@,
        final(memory)@.backoff matches Some(b) && b.state == state && b.failure == failure
            && b.delay == wait@ && b.retry_at == now@ + wait@,
        final(memory).assumed == old(memory).assumed,
        final(memory).record_unusable == old(memory).record_unusable,
        final(dir)@.applied == old(dir)@.applied,
        old(dir).reachable ==> final(dir)@.backoff == Some(
            crate::backoff::backoff_text(final(memory)@.backoff->0),
        ) && final(dir)@.pending == old(dir)@.pending.push(
            DiskWriteView::RecordBackoff(final(memory)@.backoff->0),
        ),
        !old(dir).reachable ==> final(dir)@ == old(dir)@,
{
}

/// **Law.** Clearing the backoff leaves none, here or on disk, and so does a
/// record that could not be written. Nothing else changes.
pub proof fn a_cleared_backoff_is_gone(
    memory: &mut ApplyMemory,
    dir: &mut RuntimeDir,
    other: &mut RuntimeDir,
)
    requires
        call_ensures(clear_backoff, (memory, dir), ()),
        call_ensures(backoff_write_failed, (other,), ()),
    ensures
        final(memory)@.backoff is None,
        final(memory).assumed == old(memory).assumed,
        final(memory).record_unusable == old(memory).record_unusable,
        old(dir).reachable ==> final(dir)@.backoff is None && final(dir)@.pending == old(dir)@.pending.push(DiskWriteView::RemoveBackoff),
        final(dir)@.applied == old(dir)@.applied,
        old(other).reachable ==> final(other)@.backoff is None && final(other)@.pending == old(other)@.pending.push(DiskWriteView::RemoveBackoff),
        final(other)@.applied == old(other)@.applied,
{
}

/// **Law.** A refusal of the setup's own prompt is recorded as a refusal like any
/// other, a wait from now.
pub proof fn a_refused_setup_is_a_refusal(
    memory: &mut ApplyMemory,
    dir: &mut RuntimeDir,
    now: SystemTime,
)
    requires
        call_ensures(note_auth_refusal, (memory, dir, now), ()),
    ensures
        final(memory)@.backoff matches Some(b) && b.failure == Failure::Auth && b.retry_at == now@
            + b.delay && seconds(3_600) <= b.delay <= seconds(21_600),
        final(memory).assumed == old(memory).assumed,
        final(dir)@.applied == old(dir)@.applied,
        old(dir).reachable ==> final(dir)@.backoff == Some(
            crate::backoff::backoff_text(final(memory)@.backoff->0),
        ) && final(dir)@.pending == old(dir)@.pending.push(
            DiskWriteView::RecordBackoff(final(memory)@.backoff->0),
        ),
{
}

// ---------------------------------------------------------------------------
// Reconciling
// ---------------------------------------------------------------------------
/// **Law.** A reconcile looks for a resume first, then runs the helper exactly if
/// the screen does not show the wanted state and nothing stands against it. It
/// writes nothing else.
pub proof fn a_reconcile_runs_only_for_a_change(
    memory: &mut ApplyMemory,
    dir: &mut RuntimeDir,
    state: TintState,
    now: ClockSample,
    modified: Option<SystemTime>,
    step: ReconcileStep,
    shown: Option<TintState>,
    held: bool,
    resumed: &mut ApplyMemory,
    looked: &mut RuntimeDir,
    discarded: bool,
)
    requires
        call_ensures(reconcile, (memory, dir, state, now, modified), step),
        call_ensures(applied, (&*final(memory), &*final(dir)), shown),
        call_ensures(backing_off, (&*final(memory), &*final(dir), state, now.wall), held),
        old(resumed)@ == old(memory)@,
        old(looked)@ == old(dir)@,
        call_ensures(discard_record_if_resumed, (resumed, looked, now, modified), discarded),
    ensures
        final(memory)@ == final(resumed)@,
        final(dir)@ == final(looked)@,
        step == ReconcileStep::Settled(Reconcile::UpToDate) <==> shown == Some(state),
        step == ReconcileStep::Settled(Reconcile::Pending) <==> shown != Some(state) && held,
        step == ReconcileStep::Run <==> shown != Some(state) && !held,
{
}

/// **Law.** Once the helper landed, the state is on screen for this process and
/// the others and nothing is backed off from; once it failed, what is on screen is
/// as it was and the failure is backed off from. A reconcile and an apply the user
/// asked for end alike.
pub proof fn what_came_of_the_helper_is_recorded(
    memory: &mut ApplyMemory,
    dir: &mut RuntimeDir,
    state: TintState,
    outcome: HelperOutcome,
    now: SystemTime,
    result: Reconcile,
    forced: &mut ApplyMemory,
    place: &mut RuntimeDir,
    landed: bool,
    before: Option<TintState>,
    after: Option<TintState>,
    backoff: Option<Backoff>,
)
    requires
        call_ensures(reconcile_finished, (memory, dir, state, outcome, now), result),
        call_ensures(applied, (&*old(memory), &*old(dir)), before),
        call_ensures(applied, (&*final(memory), &*final(dir)), after),
        call_ensures(current_backoff, (&*final(memory), &*final(dir)), backoff),
        old(forced)@ == old(memory)@,
        old(place)@ == old(dir)@,
        call_ensures(apply_finished, (forced, place, state, outcome, now), landed),
        old(dir).reachable || (old(dir).applied is None && old(dir).backoff is None),
        0 <= now@ < seconds(9_223_372_036_854_775_808) - seconds(21_600),
    ensures
        final(forced)@ == final(memory)@,
        final(place)@ == final(dir)@,
        landed <==> outcome == HelperOutcome::Applied,
        result == Reconcile::Applied <==> landed,
        result == Reconcile::Pending <==> !landed,
        landed ==> after == Some(state) && backoff is None,
        !landed ==> after == before,
        landed && old(dir).reachable ==> final(dir)@.pending == old(dir)@.pending.push(
            DiskWriteView::RecordApplied(state),
        ).push(DiskWriteView::RemoveBackoff),
        !landed && old(dir).reachable ==> final(dir)@.pending == old(dir)@.pending.push(
            DiskWriteView::RecordBackoff(final(memory)@.backoff->0),
        ),
        outcome matches HelperOutcome::Failed(failure) ==> (backoff matches Some(b) && b.failure
            == failure && b.state == state && b.retry_at@ > now@),
{
    applied_round_trips(state);
    match outcome {
        HelperOutcome::Applied => {},
        HelperOutcome::Failed(failure) => {
            backoff_round_trips(
                crate::apply::failure_earns(old(memory)@, old(dir)@, state, failure, now@),
            );
        },
    }
}

/// **Law.** What the user asks for runs unless it was asked for before a refusal;
/// the time a backoff has left to run does not hold it up. The setup is run on the
/// same terms, through `pkexec` on the host.
pub proof fn the_user_is_held_up_only_by_an_answer(
    memory: ApplyMemory,
    dir: RuntimeDir,
    requested_at: SystemTime,
    refused: bool,
    run: bool,
    script: &str,
    command: Result<Vec<String>, String>,
)
    requires
        call_ensures(refused_since, (&memory, &dir, requested_at), refused),
        call_ensures(apply_now, (&memory, &dir, requested_at), run),
        call_ensures(run_host_setup, (&memory, &dir, script, requested_at), command),
    ensures
        run <==> !refused,
        command is Ok <==> !refused,
        command matches Ok(args) ==> args.len() == 3 && args@[0]@ == "--host"@ && args@[1]@
            == "pkexec"@ && args@[2]@ == script@,
        command matches Err(message) ==> message@ == "the password prompt was dismissed"@,
{
    if command is Ok {
        let views = string_views((command->Ok_0)@);
        assert(views.len() == 3);
        assert(views[0] == (command->Ok_0)@[0]@ && views[1] == (command->Ok_0)@[1]@ && views[2]
            == (command->Ok_0)@[2]@);
    }
}

/// **Law.** Of the requests that have piled up the newest is run.
pub proof fn the_newest_request_is_run<T>(first: T, newer: Vec<T>, request: T)
    requires
        call_ensures(coalesce::<T>, (first, newer), request),
    ensures
        newer.len() == 0 ==> request == first,
        newer.len() > 0 ==> request == newer@[newer.len() - 1],
{
}

/// **Law.** How a run of the setup ended decides what is said and kept. A success
/// clears the backoff; a refusal is recorded; anything else leaves the records as
/// they are. The host is looked at afresh after every run that took place.
pub proof fn a_setup_ends_as_it_exited(
    host: &mut HostMemory,
    memory: &mut ApplyMemory,
    dir: &mut RuntimeDir,
    exit: SetupExit,
    now: SystemTime,
    result: Result<(), String>,
)
    requires
        call_ensures(host_setup_finished, (host, memory, dir, &exit, now), result),
    ensures
        final(memory).assumed == old(memory).assumed,
        final(dir)@.applied == old(dir)@.applied,
        final(host).setup_ineffective == old(host).setup_ineffective,
        exit matches SetupExit::NotLaunched(error) ==> {
            &&& final(host)@ == old(host)@
            &&& final(memory)@ == old(memory)@
            &&& final(dir)@ == old(dir)@
            &&& result matches Err(message) && message@ == "could not reach the host ("@ + error@
                + ")"@
        },
        exit matches SetupExit::Ended(code, status) ==> {
            &&& final(host).helper is None
            &&& !final(host).setup_ready
            &&& result is Ok <==> code == Some(0i32)
            &&& code == Some(0i32) ==> final(memory)@.backoff is None && (old(dir).reachable
                ==> final(dir)@.backoff is None && final(dir)@.pending == old(dir)@.pending.push(
                DiskWriteView::RemoveBackoff,
            ))
            &&& (code == Some(126i32) || code == Some(127i32)) && old(dir).reachable ==> final(dir)@.pending == old(dir)@.pending.push(
                DiskWriteView::RecordBackoff(final(memory)@.backoff->0),
            )
            &&& code == Some(126i32) || code == Some(127i32) ==> (final(memory)@.backoff matches
                Some(b) && b.failure == Failure::Auth && b.retry_at == now@ + b.delay)
            &&& code != Some(0i32) && code != Some(126i32) && code != Some(127i32)
                ==> final(memory)@ == old(memory)@ && final(dir)@ == old(dir)@
            &&& code == Some(126i32) ==> (result matches Err(message) && message@
                == "the password prompt was dismissed"@)
            &&& code == Some(127i32) ==> (result matches Err(message) && message@
                == "authentication failed, or the setup could not be run on the host"@)
            &&& code != Some(0i32) && code != Some(126i32) && code != Some(127i32) ==> (result
                matches Err(message) && message@ == "the setup exited with "@ + status@)
        },
{
}

/// **Law.** The setup is run from inside a flatpak that carries it, and nowhere
/// else.
pub proof fn the_setup_is_run_from_a_flatpak(
    around: Surroundings,
    script: Result<String, String>,
    bundled: Option<String>,
)
    requires
        call_ensures(setup_program, (&around,), script),
        call_ensures(
            crate::host::bundled_host_path,
            (&around.flatpak_info, "cosmic-nightlight-setup"),
            bundled,
        ),
    ensures
        script is Ok <==> around.in_flatpak && bundled is Some,
        script matches Ok(path) ==> path@ == (bundled->0)@,
        script matches Err(message) ==> message@ == (if around.in_flatpak {
            "could not find the setup program inside the flatpak"@
        } else {
            "the host setup applies to the flatpak build only"@
        }),
{
}

} // verus!
