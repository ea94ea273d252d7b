//! Deciding whether an apply happens, and keeping the records every process
//! shares: what is on screen, and what is being backed off from.
//!
//! Every apply is visible as a brief flicker and may put a password prompt on
//! the screen, so the processes consult these records before acting. They are
//! read and written under one lock, in the session's runtime directory; each
//! process also keeps its own copy for when that directory is out of reach.
//!
//! The decisions come in pairs: one before the privileged helper runs, which
//! says whether to run it, and one after, which takes what came of it.

use crate::backoff::{
    answers, answers_a_request_from, backoff_text, covers, earned, format_backoff, holds,
    longest_delay, parse_backoff, read_backoff, retry_delay, stands_against, Backoff, BackoffView,
    Failure,
};
use crate::record::{applied_text, format_applied, parse_applied, read_applied, TintState};
use crate::text::optional_view;
use crate::time::{Duration, SystemTime, CLOCK_LIMIT, NANOS_PER_SECOND};
use vstd::prelude::*;

verus! {

/// How far the wall clock may run ahead of the monotonic clock between two
/// reconciles before it counts as a suspend rather than clock drift, in seconds.
pub const SUSPEND_SKEW_SECS: u64 = 30;

// ---------------------------------------------------------------------------
// The records
// ---------------------------------------------------------------------------
/// A reading of both clocks. The monotonic one counts from an arbitrary moment.
#[derive(Clone, Copy, Debug, PartialEq, Eq, Structural)]
pub struct ClockSample {
    pub monotonic: Duration,
    pub wall: SystemTime,
}

/// A [`ClockSample`] in nanoseconds.
pub struct ClockView {
    pub monotonic: int,
    pub wall: int,
}

impl View for ClockSample {
    type V = ClockView;

    open spec fn view(&self) -> ClockView {
        ClockView { monotonic: self.monotonic@, wall: self.wall@ }
    }
}

/// What one process remembers about its applies.
#[derive(Debug)]
pub struct ApplyMemory {
    /// What this process believes is on screen, for when the shared record is
    /// out of reach. `None` is unknown.
    pub assumed: Option<TintState>,
    /// Whether writing the shared record has failed, which leaves it stuck
    /// describing an older tint.
    pub record_unusable: bool,
    /// What this process is backing off from.
    pub backoff: Option<Backoff>,
    /// The clocks as of this process's last reconcile.
    pub clocks: Option<ClockSample>,
}

/// An [`ApplyMemory`] as plain data.
#[verifier::ext_equal]
pub struct ApplyMemoryView {
    pub assumed: Option<TintState>,
    pub record_unusable: bool,
    pub backoff: Option<BackoffView>,
    pub clocks: Option<ClockView>,
}

/// A backoff that may not be there, as plain data.
pub open spec fn backoff_view(backoff: Option<Backoff>) -> Option<BackoffView> {
    match backoff {
        Some(b) => Some(b@),
        None => None,
    }
}

/// A clock reading that may not be there, as plain data.
pub open spec fn clock_view(clocks: Option<ClockSample>) -> Option<ClockView> {
    match clocks {
        Some(c) => Some(c@),
        None => None,
    }
}

/// A moment that may not be there, in nanoseconds.
pub open spec fn moment_view(moment: Option<SystemTime>) -> Option<int> {
    match moment {
        Some(m) => Some(m@),
        None => None,
    }
}

impl View for ApplyMemory {
    type V = ApplyMemoryView;

    open spec fn view(&self) -> ApplyMemoryView {
        ApplyMemoryView {
            assumed: self.assumed,
            record_unusable: self.record_unusable,
            backoff: backoff_view(self.backoff),
            clocks: clock_view(self.clocks),
        }
    }
}

/// A change to the runtime directory.
#[derive(Clone, Copy, Debug, PartialEq, Eq, Structural)]
pub enum DiskWrite {
    RecordApplied(TintState),
    RemoveApplied,
    RecordBackoff(Backoff),
    RemoveBackoff,
}

/// A [`DiskWrite`] as plain data.
pub enum DiskWriteView {
    RecordApplied(TintState),
    RemoveApplied,
    RecordBackoff(BackoffView),
    RemoveBackoff,
}

impl View for DiskWrite {
    type V = DiskWriteView;

    open spec fn view(&self) -> DiskWriteView {
        match *self {
            DiskWrite::RecordApplied(state) => DiskWriteView::RecordApplied(state),
            DiskWrite::RemoveApplied => DiskWriteView::RemoveApplied,
            DiskWrite::RecordBackoff(backoff) => DiskWriteView::RecordBackoff(backoff@),
            DiskWrite::RemoveBackoff => DiskWriteView::RemoveBackoff,
        }
    }
}

/// The session's runtime directory, as far as it concerns us: what the two
/// records hold, and the changes that have not reached the disk yet.
#[derive(Debug)]
pub struct RuntimeDir {
    /// Whether there is one at all.
    pub reachable: bool,
    /// What the applied record holds; `None` when it cannot be read.
    pub applied: Option<String>,
    /// What the backoff record holds; `None` when it cannot be read.
    pub backoff: Option<String>,
    /// The changes to carry out, oldest first.
    pub pending: Vec<DiskWrite>,
}

/// A [`RuntimeDir`] as plain data.
#[verifier::ext_equal]
pub struct RuntimeDirView {
    pub reachable: bool,
    pub applied: Option<Seq<char>>,
    pub backoff: Option<Seq<char>>,
    pub pending: Seq<DiskWriteView>,
}

/// A list of changes as plain data.
pub open spec fn writes_view(writes: Seq<DiskWrite>) -> Seq<DiskWriteView> {
    writes.map_values(|write: DiskWrite| write@)
}

impl View for RuntimeDir {
    type V = RuntimeDirView;

    open spec fn view(&self) -> RuntimeDirView {
        RuntimeDirView {
            reachable: self.reachable,
            applied: optional_view(self.applied),
            backoff: optional_view(self.backoff),
            pending: writes_view(self.pending@),
        }
    }
}

impl RuntimeDirView {
    /// The directory after a change; nothing happens to one that is out of
    /// reach.
    pub open spec fn after(self, write: DiskWriteView) -> RuntimeDirView {
        if !self.reachable {
            self
        } else {
            let pending = self.pending.push(write);
            match write {
                DiskWriteView::RecordApplied(state) => RuntimeDirView {
                    applied: Some(applied_text(state)),
                    pending,
                    ..self
                },
                DiskWriteView::RemoveApplied => RuntimeDirView { applied: None, pending, ..self },
                DiskWriteView::RecordBackoff(backoff) => RuntimeDirView {
                    backoff: Some(backoff_text(backoff)),
                    pending,
                    ..self
                },
                DiskWriteView::RemoveBackoff => RuntimeDirView { backoff: None, pending, ..self },
            }
        }
    }
}

impl RuntimeDir {
    /// Makes one change to the directory, if it is in reach.
    fn change(&mut self, write: DiskWrite)
        ensures
            final(self)@ == old(self)@.after(write@),
    {
        if !self.reachable {
            return;
        }
        match &write {
            DiskWrite::RecordApplied(state) => {
                self.applied = Some(format_applied(*state));
            },
            DiskWrite::RemoveApplied => {
                self.applied = None;
            },
            DiskWrite::RecordBackoff(backoff) => {
                self.backoff = Some(format_backoff(backoff));
            },
            DiskWrite::RemoveBackoff => {
                self.backoff = None;
            },
        }
        self.pending.push(write);
        assert(self@.pending =~= old(self)@.pending.push(write@));
    }
}

impl ApplyMemory {
    /// What a process remembers when it starts. It assumes a neutral screen, so
    /// a session that starts with the tint off costs no pointless reset.
    pub fn fresh() -> (memory: ApplyMemory)
        ensures
            memory@ == (ApplyMemoryView {
                assumed: Some(None),
                record_unusable: false,
                backoff: None,
                clocks: None,
            }),
    {
        ApplyMemory { assumed: Some(None), record_unusable: false, backoff: None, clocks: None }
    }
}

// ---------------------------------------------------------------------------
// What is on screen
// ---------------------------------------------------------------------------
/// What the shared record says is on screen, as far as it is to be believed.
pub open spec fn recorded(memory: ApplyMemoryView, dir: RuntimeDirView) -> Option<TintState> {
    if memory.record_unusable || dir.applied is None {
        None
    } else {
        read_applied(dir.applied->0)
    }
}

/// What is on screen, as far as is known: the shared record if it says, else
/// what this process believes.
pub open spec fn on_screen(memory: ApplyMemoryView, dir: RuntimeDirView) -> Option<TintState> {
    match recorded(memory, dir) {
        Some(state) => Some(state),
        None => memory.assumed,
    }
}

/// What the shared record says is on screen.
pub fn recorded_on_disk(memory: &ApplyMemory, dir: &RuntimeDir) -> (state: Option<TintState>)
    ensures
        state == recorded(memory@, dir@),
{
    if memory.record_unusable {
        return None;
    }
    match &dir.applied {
        Some(text) => parse_applied(text.as_str()),
        None => None,
    }
}

/// The tint currently on screen, as recorded by whichever of our processes last
/// applied one. `None` means "unknown", which callers must treat as "needs
/// applying".
pub fn applied(memory: &ApplyMemory, dir: &RuntimeDir) -> (state: Option<TintState>)
    ensures
        state == on_screen(memory@, dir@),
{
    match recorded_on_disk(memory, dir) {
        Some(state) => Some(state),
        None => memory.assumed,
    }
}

/// Records what is now on screen, so another of our processes doesn't apply it
/// and flicker the screen again.
pub fn record_applied(memory: &mut ApplyMemory, dir: &mut RuntimeDir, state: TintState)
    ensures
        final(memory)@ == (ApplyMemoryView { assumed: Some(state), ..old(memory)@ }),
        final(dir)@ == old(dir)@.after(DiskWriteView::RecordApplied(state)),
{
    memory.assumed = Some(state);
    dir.change(DiskWrite::RecordApplied(state));
}

/// Notes that the applied record could not be written. It is now stuck
/// describing an older tint, so it is not read again: every later reconcile
/// would otherwise try to "correct" a screen that is already right.
pub fn record_write_failed(memory: &mut ApplyMemory)
    ensures
        final(memory)@ == (ApplyMemoryView { record_unusable: true, ..old(memory)@ }),
{
    memory.record_unusable = true;
}

/// Forgets what is on screen, so the next reconcile applies unconditionally.
pub fn forget_applied(memory: &mut ApplyMemory, dir: &mut RuntimeDir)
    ensures
        final(memory)@ == (ApplyMemoryView { assumed: None, ..old(memory)@ }),
        final(dir)@ == old(dir)@.after(DiskWriteView::RemoveApplied),
{
    memory.assumed = None;
    dir.change(DiskWrite::RemoveApplied);
}

// ---------------------------------------------------------------------------
// Suspends
// ---------------------------------------------------------------------------
/// The moment of a resume between two readings of the clocks, if there was one.
///
/// Suspending pauses the monotonic clock but not the wall clock, so a gap that
/// is far longer on the wall spans one, and stepping back from now by the
/// monotonic gap lands on the resume. A wall clock that went backwards shows no
/// jump.
pub open spec fn resume_between(then: Option<ClockView>, now: ClockView) -> Option<int> {
    match then {
        None => None,
        Some(then) => {
            let monotonic = if now.monotonic < then.monotonic {
                0
            } else {
                now.monotonic - then.monotonic
            };
            if now.wall - then.wall - monotonic < SUSPEND_SKEW_SECS * NANOS_PER_SECOND {
                None
            } else {
                Some(now.wall - monotonic)
            }
        },
    }
}

/// Whether the record of what is on screen is to be discarded: there was a
/// resume, and nothing has been recorded since.
pub open spec fn is_stale(then: Option<ClockView>, now: ClockView, modified: Option<int>) -> bool {
    match resume_between(then, now) {
        Some(resumed_at) => !(modified is Some && modified->0 >= resumed_at),
        None => false,
    }
}

/// The memory after looking for a resume.
pub open spec fn resumed_memory(
    memory: ApplyMemoryView,
    now: ClockView,
    modified: Option<int>,
) -> ApplyMemoryView {
    ApplyMemoryView {
        clocks: Some(now),
        assumed: if is_stale(memory.clocks, now, modified) {
            None
        } else {
            memory.assumed
        },
        ..memory
    }
}

/// The directory after looking for a resume.
pub open spec fn resumed_dir(
    memory: ApplyMemoryView,
    dir: RuntimeDirView,
    now: ClockView,
    modified: Option<int>,
) -> RuntimeDirView {
    if is_stale(memory.clocks, now, modified) {
        dir.after(DiskWriteView::RemoveApplied)
    } else {
        dir
    }
}

/// Discards the record of what is on screen when the machine has resumed from
/// suspend since this process's last reconcile, so the tint gets pushed again:
/// a resume drops the gamma ramps while the record still claims a tint is up.
///
/// `modified` is when the record was last written, where that is known. A record
/// written since the resume is another process's fresh apply and is kept.
pub fn discard_record_if_resumed(
    memory: &mut ApplyMemory,
    dir: &mut RuntimeDir,
    now: ClockSample,
    modified: Option<SystemTime>,
) -> (discarded: bool)
    ensures
        discarded == is_stale(old(memory)@.clocks, now@, moment_view(modified)),
        final(memory)@ == resumed_memory(old(memory)@, now@, moment_view(modified)),
        final(dir)@ == resumed_dir(old(memory)@, old(dir)@, now@, moment_view(modified)),
{
    let previous = memory.clocks;
    memory.clocks = Some(now);
    // Nothing to compare against on this process's first reconcile.
    let then = match previous {
        Some(then) => then,
        None => {
            return false;
        },
    };
    let now_monotonic = now.monotonic.as_nanos() as i128;
    let then_monotonic = then.monotonic.as_nanos() as i128;
    let monotonic: i128 = if now_monotonic < then_monotonic {
        0
    } else {
        now_monotonic - then_monotonic
    };
    let now_wall = now.wall.as_nanos();
    let then_wall = then.wall.as_nanos();
    let skew = Duration::from_secs(SUSPEND_SKEW_SECS).as_nanos() as i128;
    if now_wall - then_wall - monotonic < skew {
        return false;
    }
    let resumed_at = now_wall - monotonic;
    if let Some(modified) = modified {
        if modified.as_nanos() >= resumed_at {
            return false;
        }
    }
    forget_applied(memory, dir);
    true
}

// ---------------------------------------------------------------------------
// Backing off
// ---------------------------------------------------------------------------
/// What the shared record says is being backed off from.
pub open spec fn backoff_recorded(dir: RuntimeDirView) -> Option<BackoffView> {
    match dir.backoff {
        Some(text) => read_backoff(text),
        None => None,
    }
}

/// The backoff in force: the shared record if it can be read, so that a refusal
/// any process collected counts for all of them, else this process's own.
pub open spec fn backoff_in_force(memory: ApplyMemoryView, dir: RuntimeDirView) -> Option<
    BackoffView,
> {
    match backoff_recorded(dir) {
        Some(backoff) => Some(backoff),
        None => memory.backoff,
    }
}

/// Whether applying `state` is to be skipped for now.
pub open spec fn held_off(
    memory: ApplyMemoryView,
    dir: RuntimeDirView,
    state: TintState,
    now: int,
) -> bool {
    match backoff_in_force(memory, dir) {
        Some(backoff) => stands_against(backoff, state, now),
        None => false,
    }
}

/// Whether a refusal has answered a request made at `requested_at`.
pub open spec fn declined(
    memory: ApplyMemoryView,
    dir: RuntimeDirView,
    requested_at: int,
) -> bool {
    match backoff_in_force(memory, dir) {
        Some(backoff) => answers(backoff, requested_at),
        None => false,
    }
}

/// The backoff in force.
pub fn current_backoff(memory: &ApplyMemory, dir: &RuntimeDir) -> (backoff: Option<Backoff>)
    ensures
        backoff_view(backoff) == backoff_in_force(memory@, dir@),
{
    if let Some(text) = &dir.backoff {
        if let Some(backoff) = parse_backoff(text.as_str()) {
            return Some(backoff);
        }
    }
    memory.backoff
}

/// Whether applying `state` should be skipped for now after earlier failures.
pub fn backing_off(
    memory: &ApplyMemory,
    dir: &RuntimeDir,
    state: TintState,
    now: SystemTime,
) -> (held: bool)
    ensures
        held == held_off(memory@, dir@, state, now@),
{
    match current_backoff(memory, dir) {
        Some(backoff) => holds(&backoff, state, now),
        None => false,
    }
}

/// Whether an authentication refusal has been recorded since `instant`, which
/// keeps one "no" from being spent more than once. It is not keyed to the state:
/// what was refused is the authentication, not the tint.
pub fn refused_since(memory: &ApplyMemory, dir: &RuntimeDir, instant: SystemTime) -> (refused: bool)
    ensures
        refused == declined(memory@, dir@, instant@),
{
    match current_backoff(memory, dir) {
        Some(backoff) => answers_a_request_from(&backoff, instant),
        None => false,
    }
}

/// Writes a backoff, or the absence of one, to both the shared record and this
/// process's own copy.
fn store_backoff(memory: &mut ApplyMemory, dir: &mut RuntimeDir, backoff: Option<Backoff>)
    ensures
        final(memory)@ == (ApplyMemoryView { backoff: backoff_view(backoff), ..old(memory)@ }),
        final(dir)@ == old(dir)@.after(
            match backoff {
                Some(b) => DiskWriteView::RecordBackoff(b@),
                None => DiskWriteView::RemoveBackoff,
            },
        ),
{
    memory.backoff = backoff;
    match backoff {
        Some(backoff) => dir.change(DiskWrite::RecordBackoff(backoff)),
        None => dir.change(DiskWrite::RemoveBackoff),
    }
}

/// Notes that the backoff record could not be written. Whatever is on disk now
/// describes some older attempt, and a stale deadline is worse than none, so it
/// is taken out of play and each process falls back to its own copy.
pub fn backoff_write_failed(dir: &mut RuntimeDir)
    ensures
        final(dir)@ == old(dir)@.after(DiskWriteView::RemoveBackoff),
{
    dir.change(DiskWrite::RemoveBackoff);
}

/// The backoff a failure now earns, given the one in force.
pub open spec fn failure_earns(
    memory: ApplyMemoryView,
    dir: RuntimeDirView,
    state: TintState,
    failure: Failure,
    now: int,
) -> BackoffView {
    earned(backoff_in_force(memory, dir), state, failure, now)
}

/// Records a failed apply, so the next attempt at the same state, from this
/// process or any of the others, waits. The previous wait is read back from the
/// shared record too, so a failure that keeps happening doubles once per attempt
/// rather than once per attempt and process.
pub fn note_failure(
    memory: &mut ApplyMemory,
    dir: &mut RuntimeDir,
    state: TintState,
    failure: Failure,
    now: SystemTime,
) -> (delay: Duration)
    requires
        now@ + longest_delay(Failure::Auth) < CLOCK_LIMIT,
    ensures
        final(memory)@ == (ApplyMemoryView {
            backoff: Some(failure_earns(old(memory)@, old(dir)@, state, failure, now@)),
            ..old(memory)@
        }),
        final(dir)@ == old(dir)@.after(
            DiskWriteView::RecordBackoff(
                failure_earns(old(memory)@, old(dir)@, state, failure, now@),
            ),
        ),
        delay@ == failure_earns(old(memory)@, old(dir)@, state, failure, now@).delay,
{
    let previous = match current_backoff(memory, dir) {
        Some(backoff) => if covers(&backoff, state) {
            Some(backoff.delay)
        } else {
            None
        },
        None => None,
    };
    let delay = retry_delay(previous, failure);
    let retry_at = now.checked_add(delay);
    assert(retry_at is Some);
    if let Some(retry_at) = retry_at {
        store_backoff(memory, dir, Some(Backoff { state, retry_at, delay, failure }));
    }
    delay
}

/// What is on screen, with "unknown" taken for neutral.
pub open spec fn screen_or_neutral(memory: ApplyMemoryView, dir: RuntimeDirView) -> TintState {
    match on_screen(memory, dir) {
        Some(state) => state,
        None => None,
    }
}

/// Records a refusal that came from the host setup's own prompt rather than from
/// an apply, so the applies queued behind it are answered by it too.
pub fn note_auth_refusal(memory: &mut ApplyMemory, dir: &mut RuntimeDir, now: SystemTime)
    requires
        now@ + longest_delay(Failure::Auth) < CLOCK_LIMIT,
    ensures
        ({
            let refusal = failure_earns(
                old(memory)@,
                old(dir)@,
                screen_or_neutral(old(memory)@, old(dir)@),
                Failure::Auth,
                now@,
            );
            &&& final(memory)@ == (ApplyMemoryView { backoff: Some(refusal), ..old(memory)@ })
            &&& final(dir)@ == old(dir)@.after(DiskWriteView::RecordBackoff(refusal))
        }),
{
    let state = match applied(memory, dir) {
        Some(state) => state,
        None => None,
    };
    note_failure(memory, dir, state, Failure::Auth, now);
}

/// Clears the backoff: something just worked, so nothing is worth waiting out.
pub fn clear_backoff(memory: &mut ApplyMemory, dir: &mut RuntimeDir)
    ensures
        final(memory)@ == (ApplyMemoryView { backoff: None, ..old(memory)@ }),
        final(dir)@ == old(dir)@.after(DiskWriteView::RemoveBackoff),
{
    store_backoff(memory, dir, None);
}

} // verus!
