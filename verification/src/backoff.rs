//! How long to leave an apply alone after it failed.
//!
//! A failure that persists has to be damped, and the two kinds of failure want
//! very different damping: a fault that clears on its own is worth retrying
//! briskly, while every retry after a refused password prompt re-opens the
//! dialog somebody just closed.

use crate::record::{
    applied_round_trips, applied_text, format_applied, lemma_applied_text, parse_applied,
    read_applied, TintState,
};
use crate::text::{
    decimal, decimal_text, lemma_decimal, lemma_digits_unspaced, lemma_words_cons, lemma_words_last,
    parse_number, parse_undoes_decimal, parse_unsigned, same_text, unspaced, views, words, words_of,
};
use crate::time::{
    unix_seconds, Duration, SystemTime, CLOCK_LIMIT, NANOS_PER_SECOND, SPAN_LIMIT,
};
use vstd::prelude::*;

verus! {

/// Why an apply didn't happen, which decides how hard to back off from it.
#[derive(Clone, Copy, Debug, PartialEq, Eq, Structural)]
pub enum Failure {
    /// The password prompt was dismissed, or the user is not authorized at all:
    /// a person saying no rather than a passing fault.
    Auth,
    /// Anything else: a display asleep, a helper gone missing. Worth retrying
    /// soon.
    Other,
}

/// How long to wait before retrying the same state after a fault, and the
/// ceiling that wait doubles up to, in seconds.
pub const FIRST_RETRY_SECS: u64 = 5;

pub const MAX_RETRY_SECS: u64 = 300;

/// The same, after a refusal: an hour, doubling to six.
pub const FIRST_AUTH_RETRY_SECS: u64 = 3_600;

pub const MAX_AUTH_RETRY_SECS: u64 = 21_600;

/// The apply being backed off from.
#[derive(Clone, Copy, Debug, PartialEq, Eq, Structural)]
pub struct Backoff {
    /// The state that failed.
    pub state: TintState,
    /// When it becomes worth trying again. On the wall clock, so the deadline
    /// means the same thing to every process that reads it.
    pub retry_at: SystemTime,
    /// How long the wait was.
    pub delay: Duration,
    /// What went wrong, which decides how far the record reaches.
    pub failure: Failure,
}

/// A [`Backoff`] with its times as nanoseconds.
pub struct BackoffView {
    pub state: TintState,
    pub retry_at: int,
    pub delay: int,
    pub failure: Failure,
}

impl View for Backoff {
    type V = BackoffView;

    open spec fn view(&self) -> BackoffView {
        BackoffView {
            state: self.state,
            retry_at: self.retry_at@,
            delay: self.delay@,
            failure: self.failure,
        }
    }
}

// ---------------------------------------------------------------------------
// The two scales
// ---------------------------------------------------------------------------
/// The shortest wait after a failure, in nanoseconds.
pub open spec fn first_delay(failure: Failure) -> int {
    match failure {
        Failure::Auth => FIRST_AUTH_RETRY_SECS * NANOS_PER_SECOND,
        Failure::Other => FIRST_RETRY_SECS * NANOS_PER_SECOND,
    }
}

/// The longest wait after a failure, in nanoseconds.
pub open spec fn longest_delay(failure: Failure) -> int {
    match failure {
        Failure::Auth => MAX_AUTH_RETRY_SECS * NANOS_PER_SECOND,
        Failure::Other => MAX_RETRY_SECS * NANOS_PER_SECOND,
    }
}

/// The wait after a failure, given the previous wait: twice as long as last
/// time, kept within this failure's own range.
pub open spec fn next_delay(previous: Option<int>, failure: Failure) -> int {
    match previous {
        Some(delay) => if delay * 2 < first_delay(failure) {
            first_delay(failure)
        } else if delay * 2 > longest_delay(failure) {
            longest_delay(failure)
        } else {
            delay * 2
        },
        None => first_delay(failure),
    }
}

/// How long to wait after a failure, given how long the previous wait was:
/// `None` if there wasn't one that speaks to this attempt.
pub fn retry_delay(previous: Option<Duration>, failure: Failure) -> (delay: Duration)
    ensures
        delay@ == next_delay(
            match previous {
                Some(p) => Some(p@),
                None => None,
            },
            failure,
        ),
{
    let (first, longest) = match failure {
        Failure::Auth => (
            Duration::from_secs(FIRST_AUTH_RETRY_SECS),
            Duration::from_secs(MAX_AUTH_RETRY_SECS),
        ),
        Failure::Other => (
            Duration::from_secs(FIRST_RETRY_SECS),
            Duration::from_secs(MAX_RETRY_SECS),
        ),
    };
    match previous {
        Some(previous) => {
            let doubled = previous.as_nanos() * 2;
            if doubled < first.as_nanos() {
                first
            } else if doubled > longest.as_nanos() {
                longest
            } else {
                let secs = (doubled / NANOS_PER_SECOND) as u64;
                let nanos = (doubled % NANOS_PER_SECOND) as u32;
                Duration::new(secs, nanos)
            }
        },
        None => first,
    }
}

/// **Law.** Every wait stays within its own failure's range, whatever came
/// before it: the two scales cannot leak into each other.
pub proof fn delays_stay_on_their_own_scale(previous: Option<int>, failure: Failure)
    ensures
        first_delay(failure) <= next_delay(previous, failure) <= longest_delay(failure),
{
}

/// The wait after `attempts` failures of the same kind in a row, the first of
/// them following a wait of `start`.
pub open spec fn delay_after(start: int, failure: Failure, attempts: nat) -> int
    decreases attempts,
{
    if attempts == 0 {
        start
    } else {
        next_delay(Some(delay_after(start, failure, (attempts - 1) as nat)), failure)
    }
}

/// **Law.** While the same failure repeats, the wait never shrinks.
pub proof fn delays_never_shrink(previous: int, failure: Failure)
    requires
        0 <= previous <= longest_delay(failure),
    ensures
        previous <= next_delay(Some(previous), failure),
{
}

/// **Law.** Both scales stop growing: after seven failures in a row, from any
/// previous wait at all, the wait is the longest one and stays there.
pub proof fn both_scales_settle(start: int, failure: Failure, attempts: nat)
    requires
        0 <= start,
        attempts >= 7,
    ensures
        delay_after(start, failure, attempts) == longest_delay(failure),
    decreases attempts,
{
    if attempts > 7 {
        both_scales_settle(start, failure, (attempts - 1) as nat);
    } else {
        reveal_with_fuel(delay_after, 8);
    }
}

// ---------------------------------------------------------------------------
// What a backoff speaks to
// ---------------------------------------------------------------------------
/// Whether a backoff speaks to a request for `state`: a fault only to the state
/// that hit it, a refusal to every state.
pub open spec fn speaks_to(backoff: BackoffView, state: TintState) -> bool {
    backoff.failure == Failure::Auth || backoff.state == state
}

/// Whether a backoff still stands against a request for `state` at `now`: it
/// speaks to it, its deadline is ahead, and the deadline is no further out than
/// the longest wait there is. One beyond that comes from a clock stepped
/// backwards, and counts as expired.
pub open spec fn stands_against(backoff: BackoffView, state: TintState, now: int) -> bool {
    speaks_to(backoff, state) && now < backoff.retry_at && backoff.retry_at - now
        <= longest_delay(Failure::Auth)
}

/// Whether a backoff is a refusal that also answers a request made at
/// `requested_at`: one that came at that moment or later.
pub open spec fn answers(backoff: BackoffView, requested_at: int) -> bool {
    backoff.failure == Failure::Auth && backoff.retry_at - backoff.delay >= requested_at
}

/// Whether `backoff` speaks to a request for `state`.
pub fn covers(backoff: &Backoff, state: TintState) -> (covered: bool)
    ensures
        covered == speaks_to(backoff@, state),
{
    backoff.failure == Failure::Auth || backoff.state == state
}

/// Whether `backoff` still stands against a request for `state` at `now`.
pub fn holds(backoff: &Backoff, state: TintState, now: SystemTime) -> (held: bool)
    ensures
        held == stands_against(backoff@, state, now@),
{
    if !covers(backoff, state) {
        return false;
    }
    let remaining = backoff.retry_at.as_nanos() - now.as_nanos();
    let longest = Duration::from_secs(MAX_AUTH_RETRY_SECS).as_nanos() as i128;
    remaining > 0 && remaining <= longest
}

/// Whether `backoff` is a refusal that also answers a request made at
/// `requested_at`.
pub fn answers_a_request_from(backoff: &Backoff, requested_at: SystemTime) -> (answered: bool)
    ensures
        answered == answers(backoff@, requested_at@),
{
    if backoff.failure != Failure::Auth {
        return false;
    }
    let refused_at = backoff.retry_at.as_nanos() - backoff.delay.as_nanos() as i128;
    refused_at >= requested_at.as_nanos()
}

/// The backoff a failure at `now` earns, given the wait before it.
pub open spec fn earned(
    previous: Option<BackoffView>,
    state: TintState,
    failure: Failure,
    now: int,
) -> BackoffView {
    let delay = next_delay(
        match previous {
            Some(b) => if speaks_to(b, state) {
                Some(b.delay)
            } else {
                None
            },
            None => None,
        },
        failure,
    );
    BackoffView { state, retry_at: now + delay, delay, failure }
}

/// **Law.** A refusal just collected holds off every state, from the moment it
/// was collected until its deadline and not after.
pub proof fn a_refusal_holds_off_every_state(
    previous: Option<BackoffView>,
    refused: TintState,
    at: int,
    state: TintState,
    now: int,
)
    requires
        at <= now,
    ensures
        ({
            let backoff = earned(previous, refused, Failure::Auth, at);
            stands_against(backoff, state, now) <==> now < backoff.retry_at
        }),
{
}

/// **Law.** A fault holds off the state that hit it until its deadline, and no
/// other state at any time.
pub proof fn a_fault_holds_off_only_its_own_state(
    previous: Option<BackoffView>,
    failed: TintState,
    at: int,
    state: TintState,
    now: int,
)
    requires
        at <= now,
    ensures
        ({
            let backoff = earned(previous, failed, Failure::Other, at);
            stands_against(backoff, state, now) <==> state == failed && now < backoff.retry_at
        }),
{
}

/// **Law.** A refusal answers exactly the requests made no later than it.
pub proof fn a_refusal_answers_what_came_before_it(
    previous: Option<BackoffView>,
    state: TintState,
    at: int,
    requested_at: int,
)
    ensures
        answers(earned(previous, state, Failure::Auth, at), requested_at) <==> requested_at <= at,
{
}

/// **Law.** A fault answers no request: it put no question in front of anyone.
pub proof fn a_fault_answers_nothing(backoff: BackoffView, requested_at: int)
    requires
        backoff.failure == Failure::Other,
    ensures
        !answers(backoff, requested_at),
{
}

/// **Law.** A record never holds anything off for longer than the longest wait
/// there is, whatever it says.
pub proof fn no_record_parks_the_tint(backoff: BackoffView, state: TintState, now: int)
    requires
        stands_against(backoff, state, now),
    ensures
        !stands_against(backoff, state, now + longest_delay(Failure::Auth)),
{
}

// ---------------------------------------------------------------------------
// The shared record
// ---------------------------------------------------------------------------
/// How a kind of failure is written down.
pub open spec fn failure_text(failure: Failure) -> Seq<char> {
    match failure {
        Failure::Auth => "auth"@,
        Failure::Other => "other"@,
    }
}

/// How a backoff is written down: `<state> <retry-at> <delay> <failure>`, both
/// times in whole seconds and the deadline since the Unix epoch.
pub open spec fn backoff_text(backoff: BackoffView) -> Seq<char> {
    applied_text(backoff.state) + seq![' '] + (decimal(unix_seconds(backoff.retry_at) as nat)
        + seq![' '] + (decimal((backoff.delay / NANOS_PER_SECOND as int) as nat) + seq![' ']
        + failure_text(backoff.failure)))
}

/// The backoff a list of words describes. Words beyond the fourth say nothing. A
/// deadline that no clock can hold makes the record unreadable, like any other
/// word that is not what it should be.
pub open spec fn backoff_from_words(list: Seq<Seq<char>>) -> Option<BackoffView> {
    if list.len() < 4 {
        None
    } else {
        match (
            read_applied(list[0]),
            parse_unsigned(list[1], i64::MAX as nat),
            parse_unsigned(list[2], u64::MAX as nat),
        ) {
            (Some(state), Some(retry_at), Some(delay)) => {
                let retry_at = retry_at * NANOS_PER_SECOND;
                let delay = delay * NANOS_PER_SECOND;
                if list[3] == "auth"@ {
                    Some(BackoffView { state, retry_at, delay, failure: Failure::Auth })
                } else if list[3] == "other"@ {
                    Some(BackoffView { state, retry_at, delay, failure: Failure::Other })
                } else {
                    None
                }
            },
            _ => None,
        }
    }
}

/// The backoff a record describes. `None` means the record is unreadable, which
/// is "nothing to wait for".
pub open spec fn read_backoff(text: Seq<char>) -> Option<BackoffView> {
    backoff_from_words(words(text))
}

/// Writes a backoff down; see [`backoff_text`].
pub fn format_backoff(backoff: &Backoff) -> (text: String)
    ensures
        text@ == backoff_text(backoff@),
{
    proof {
        reveal_strlit(" ");
    }
    let failure = match backoff.failure {
        Failure::Auth => "auth",
        Failure::Other => "other",
    };
    let retry_at = decimal_text(backoff.retry_at.unix_seconds());
    let delay = decimal_text(backoff.delay.as_secs());
    let mut text = format_applied(backoff.state);
    text.append(" ");
    text.append(retry_at.as_str());
    text.append(" ");
    text.append(delay.as_str());
    text.append(" ");
    text.append(failure);
    assert(" "@ =~= seq![' ']);
    assert(text@ =~= backoff_text(backoff@));
    text
}

/// Parses a recorded backoff, or `None` if the record is unreadable. Failing
/// open is the right way round: the cost is a retry that could have waited.
pub fn parse_backoff(text: &str) -> (backoff: Option<Backoff>)
    ensures
        backoff matches Some(b) ==> read_backoff(text@) == Some(b@),
        backoff is None ==> read_backoff(text@) is None,
{
    let fields = words_of(text);
    let ghost list = words(text@);
    assert(views(fields@) == list);
    if fields.len() < 4 {
        assert(list.len() == fields.len());
        return None;
    }
    assert(list[0] == fields[0]@ && list[1] == fields[1]@ && list[2] == fields[2]@ && list[3]
        == fields[3]@);
    let state = match parse_applied(fields[0]) {
        Some(state) => state,
        None => {
            return None;
        },
    };
    let retry_at = match parse_number(fields[1], i64::MAX as u64) {
        Some(secs) => match SystemTime::after_epoch(Duration::from_secs(secs)) {
            Some(retry_at) => retry_at,
            None => {
                return None;
            },
        },
        None => {
            return None;
        },
    };
    let delay = match parse_number(fields[2], u64::MAX) {
        Some(secs) => Duration::from_secs(secs),
        None => {
            return None;
        },
    };
    let failure = if same_text(fields[3], "auth") {
        Failure::Auth
    } else if same_text(fields[3], "other") {
        Failure::Other
    } else {
        return None;
    };
    Some(Backoff { state, retry_at, delay, failure })
}

/// `backoff` with its times cut down to the whole seconds a record holds.
pub open spec fn to_the_second(backoff: BackoffView) -> BackoffView {
    BackoffView {
        retry_at: unix_seconds(backoff.retry_at) * NANOS_PER_SECOND as int,
        delay: (backoff.delay / NANOS_PER_SECOND as int) * NANOS_PER_SECOND as int,
        ..backoff
    }
}

/// Whether a backoff's times are ones a clock can show.
pub open spec fn is_on_the_clock(backoff: BackoffView) -> bool {
    -CLOCK_LIMIT <= backoff.retry_at < CLOCK_LIMIT && 0 <= backoff.delay < SPAN_LIMIT
}

/// **Law.** A backoff survives the trip through the record that shares it, cut
/// down to whole seconds.
pub proof fn backoff_round_trips(backoff: BackoffView)
    requires
        is_on_the_clock(backoff),
    ensures
        read_backoff(backoff_text(backoff)) == Some(to_the_second(backoff)),
{
    let state = applied_text(backoff.state);
    let retry_at = unix_seconds(backoff.retry_at) as nat;
    let delay = (backoff.delay / NANOS_PER_SECOND as int) as nat;
    let failure = failure_text(backoff.failure);
    reveal_strlit("auth");
    reveal_strlit("other");
    assert(unspaced(failure));
    assert("auth"@ != "other"@) by {
        assert("auth"@.len() != "other"@.len());
    }
    lemma_applied_text(backoff.state);
    lemma_decimal(retry_at);
    lemma_digits_unspaced(decimal(retry_at));
    lemma_decimal(delay);
    lemma_digits_unspaced(decimal(delay));
    lemma_words_last(failure);
    lemma_words_cons(decimal(delay), failure);
    lemma_words_cons(decimal(retry_at), decimal(delay) + seq![' '] + failure);
    lemma_words_cons(
        state,
        decimal(retry_at) + seq![' '] + (decimal(delay) + seq![' '] + failure),
    );
    let list = words(backoff_text(backoff));
    assert(list =~= seq![state, decimal(retry_at), decimal(delay), failure]);
    applied_round_trips(backoff.state);
    parse_undoes_decimal(retry_at, i64::MAX as nat);
    parse_undoes_decimal(delay, u64::MAX as nat);
}

/// **Law.** A refusal one process collected holds off every process that reads
/// its record, for every state, until the whole second its deadline falls in.
pub proof fn a_shared_refusal_holds_off_the_others(
    previous: Option<BackoffView>,
    refused: TintState,
    at: int,
    state: TintState,
    now: int,
)
    requires
        0 <= at <= now,
        at + longest_delay(Failure::Auth) < CLOCK_LIMIT,
        is_on_the_clock(earned(previous, refused, Failure::Auth, at)),
    ensures
        ({
            let collected = earned(previous, refused, Failure::Auth, at);
            let shared = read_backoff(backoff_text(collected));
            &&& shared is Some
            &&& stands_against(shared->0, state, now) <==> now < shared->0.retry_at
            &&& collected.retry_at - NANOS_PER_SECOND < shared->0.retry_at <= collected.retry_at
        }),
{
    backoff_round_trips(earned(previous, refused, Failure::Auth, at));
}

} // verus!
