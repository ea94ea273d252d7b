//! Spans of time and points on the wall clock, held to the nanosecond.

use vstd::prelude::*;

verus! {

/// How many nanoseconds there are in a second.
pub const NANOS_PER_SECOND: u128 = 1_000_000_000;

/// One past the longest span there is: as many seconds as a `u64` counts, and
/// the fraction of a second after the last of them.
pub const SPAN_LIMIT: u128 = 18_446_744_073_709_551_616_000_000_000;

/// How far a wall clock reaches, in nanoseconds: from as many seconds before the
/// Unix epoch as an `i64` counts down to, up to the fraction of a second after
/// the last one it counts up to.
pub const CLOCK_LIMIT: u128 = 9_223_372_036_854_775_808_000_000_000;

/// A span of time.
#[derive(Clone, Copy, Debug, PartialEq, Eq, Structural)]
pub struct Duration {
    nanos: u128,
}

impl View for Duration {
    type V = int;

    /// The span in nanoseconds.
    closed spec fn view(&self) -> int {
        self.nanos as int
    }
}

impl Duration {
    #[verifier::type_invariant]
    spec fn within_limit(self) -> bool {
        self.nanos < SPAN_LIMIT
    }

    /// A span of whole seconds.
    pub fn from_secs(secs: u64) -> (span: Duration)
        ensures
            span@ == secs * NANOS_PER_SECOND,
    {
        Duration { nanos: secs as u128 * NANOS_PER_SECOND }
    }

    /// A span of whole seconds and a fraction of one.
    pub fn new(secs: u64, nanos: u32) -> (span: Duration)
        requires
            nanos < NANOS_PER_SECOND,
        ensures
            span@ == secs * NANOS_PER_SECOND + nanos,
    {
        Duration { nanos: secs as u128 * NANOS_PER_SECOND + nanos as u128 }
    }

    /// The span in nanoseconds.
    pub fn as_nanos(self) -> (nanos: u128)
        ensures
            nanos == self@,
            nanos < SPAN_LIMIT,
    {
        proof {
            use_type_invariant(&self);
        }
        self.nanos
    }

    /// The whole seconds of the span.
    pub fn as_secs(self) -> (secs: u64)
        ensures
            secs == self@ / NANOS_PER_SECOND as int,
    {
        proof {
            use_type_invariant(&self);
        }
        (self.nanos / NANOS_PER_SECOND) as u64
    }
}

/// A point on the wall clock.
#[derive(Clone, Copy, Debug, PartialEq, Eq, Structural)]
pub struct SystemTime {
    nanos: i128,
}

impl View for SystemTime {
    type V = int;

    /// Nanoseconds since the Unix epoch, negative before it.
    closed spec fn view(&self) -> int {
        self.nanos as int
    }
}

impl SystemTime {
    #[verifier::type_invariant]
    spec fn within_limit(self) -> bool {
        -CLOCK_LIMIT <= self.nanos < CLOCK_LIMIT
    }

    /// The moment `span` after the Unix epoch, or `None` when the clock cannot
    /// hold it.
    pub fn after_epoch(span: Duration) -> (at: Option<SystemTime>)
        ensures
            at is Some <==> span@ < CLOCK_LIMIT,
            at matches Some(t) ==> t@ == span@,
    {
        let nanos = span.as_nanos();
        if nanos < CLOCK_LIMIT {
            Some(SystemTime { nanos: nanos as i128 })
        } else {
            None
        }
    }

    /// The moment `span` before the Unix epoch, or `None` when the clock cannot
    /// hold it.
    pub fn before_epoch(span: Duration) -> (at: Option<SystemTime>)
        ensures
            at is Some <==> span@ <= CLOCK_LIMIT,
            at matches Some(t) ==> t@ == -span@,
    {
        let nanos = span.as_nanos();
        if nanos <= CLOCK_LIMIT {
            Some(SystemTime { nanos: -(nanos as i128) })
        } else {
            None
        }
    }

    /// Nanoseconds since the Unix epoch, negative before it.
    pub fn as_nanos(self) -> (nanos: i128)
        ensures
            nanos == self@,
            -CLOCK_LIMIT <= nanos < CLOCK_LIMIT,
    {
        proof {
            use_type_invariant(&self);
        }
        self.nanos
    }

    /// The moment `span` later, or `None` when the clock cannot hold it.
    pub fn checked_add(self, span: Duration) -> (later: Option<SystemTime>)
        ensures
            later is Some <==> self@ + span@ < CLOCK_LIMIT,
            later matches Some(at) ==> at@ == self@ + span@,
    {
        proof {
            use_type_invariant(&self);
        }
        let nanos = self.nanos + span.as_nanos() as i128;
        if nanos < CLOCK_LIMIT as i128 {
            Some(SystemTime { nanos })
        } else {
            None
        }
    }

    /// Whole seconds since the Unix epoch: none at all before it.
    pub fn unix_seconds(self) -> (secs: u64)
        ensures
            secs == unix_seconds(self@),
    {
        proof {
            use_type_invariant(&self);
        }
        if self.nanos < 0 {
            0
        } else {
            (self.nanos as u128 / NANOS_PER_SECOND) as u64
        }
    }
}

/// Whole seconds between the Unix epoch and a later moment; zero for a moment
/// before it.
pub open spec fn unix_seconds(nanos: int) -> int {
    if nanos < 0 {
        0
    } else {
        nanos / NANOS_PER_SECOND as int
    }
}

} // verus!
