//! Spans of time, and how long the event loop may wait.

use vstd::prelude::*;

verus! {

pub const NANOS_PER_SEC: u32 = 1_000_000_000;

/// A span of time in whole seconds and nanoseconds. Its view is its length in
/// nanoseconds.
#[derive(Debug, Clone, Copy, PartialEq, Eq, Hash)]
pub struct Duration {
    secs: u64,
    nanos: u32,
}

impl View for Duration {
    type V = nat;

    closed spec fn view(&self) -> nat {
        self.secs as nat * NANOS_PER_SEC as nat + self.nanos as nat
    }
}

impl Duration {
    /// The nanoseconds do not make up a second.
    #[verifier::type_invariant]
    pub closed spec fn well_formed(self) -> bool {
        self.nanos < NANOS_PER_SEC
    }

    /// Makes a span of `secs` seconds and `nanos` nanoseconds.
    pub fn from_parts(secs: u64, nanos: u32) -> (span: Duration)
        requires
            nanos < NANOS_PER_SEC,
        ensures
            span@ == secs * NANOS_PER_SEC + nanos,
            span.well_formed(),
    {
        Duration { secs, nanos }
    }

    /// The number of whole seconds.
    pub fn as_secs(&self) -> (secs: u64)
        ensures
            secs == self@ / NANOS_PER_SEC as nat,
    {
        proof {
            use_type_invariant(self);
        }
        self.secs
    }

    /// The nanoseconds beyond the whole seconds.
    pub fn subsec_nanos(&self) -> (nanos: u32)
        ensures
            nanos == self@ % NANOS_PER_SEC as nat,
    {
        proof {
            use_type_invariant(self);
        }
        self.nanos
    }

    /// Tells whether this span is at least as long as the other.
    pub fn at_least(&self, other: &Duration) -> (result: bool)
        ensures
            result == (self@ >= other@),
            self@ == other@ ==> *self == *other,
            self.well_formed(),
            other.well_formed(),
    {
        proof {
            use_type_invariant(self);
            use_type_invariant(other);
        }
        self.secs > other.secs || (self.secs == other.secs && self.nanos >= other.nanos)
    }
}

/// A span of time is known by its length.
pub proof fn law_equal_lengths_are_equal_spans(a: Duration, b: Duration)
    requires
        a.well_formed(),
        b.well_formed(),
        a@ == b@,
    ensures
        a == b,
{
}

/// The timeout is infinite or a span that is well formed.
pub open spec fn timeout_well_formed(timeout: Option<Duration>) -> bool {
    timeout matches Some(span) ==> span.well_formed()
}

/// The length of a timeout in nanoseconds. There is none where the timeout is
/// infinite.
pub open spec fn timeout_nanos(timeout: Option<Duration>) -> Option<nat> {
    match timeout {
        Some(span) => Some(span@),
        None => None,
    }
}

/// The shorter of two timeouts, where `None` is infinite.
pub open spec fn shorter(a: Option<nat>, b: Option<nat>) -> Option<nat> {
    match (a, b) {
        (Some(x), Some(y)) => Some(if x <= y { x } else { y }),
        (Some(x), None) => Some(x),
        (None, _) => b,
    }
}

/// A wait of `a` is over no later than a wait of `b`.
pub open spec fn no_longer(a: Option<nat>, b: Option<nat>) -> bool {
    match (a, b) {
        (Some(x), Some(y)) => x <= y,
        (Some(_), None) => true,
        (None, _) => b is None,
    }
}

/// The timeout that is over first, and `a` where both are over at once.
pub open spec fn shorter_timeout(a: Option<Duration>, b: Option<Duration>) -> Option<Duration> {
    if no_longer(timeout_nanos(a), timeout_nanos(b)) {
        a
    } else {
        b
    }
}

/// Picks the shorter of two timeouts, where `None` is an infinite timeout and not
/// a zero one.
pub fn min_timeout(a: Option<Duration>, b: Option<Duration>) -> (timeout: Option<Duration>)
    ensures
        timeout == shorter_timeout(a, b),
        timeout_nanos(timeout) == shorter(timeout_nanos(a), timeout_nanos(b)),
        timeout_nanos(a) == timeout_nanos(b) ==> a == b,
        timeout_well_formed(timeout),
{
    match (a, b) {
        (Some(a_timeout), Some(b_timeout)) => {
            if b_timeout.at_least(&a_timeout) {
                Some(a_timeout)
            } else {
                Some(b_timeout)
            }
        },
        (Some(a_timeout), None) => {
            proof {
                use_type_invariant(&a_timeout);
            }
            Some(a_timeout)
        },
        (None, Some(b_timeout)) => {
            proof {
                use_type_invariant(&b_timeout);
            }
            Some(b_timeout)
        },
        (None, None) => None,
    }
}

/// Of timeouts themselves, and not only of their lengths, it does not matter in
/// which order they are combined, how they are grouped or whether one is counted
/// twice. An infinite one never shortens the wait, and a zero one always ends it.
pub proof fn law_min_timeout_of_values(
    a: Option<Duration>,
    b: Option<Duration>,
    c: Option<Duration>,
    zero: Duration,
)
    requires
        timeout_well_formed(a),
        timeout_well_formed(b),
        timeout_well_formed(c),
        zero.well_formed(),
        zero@ == 0,
    ensures
        shorter_timeout(a, b) == shorter_timeout(b, a),
        shorter_timeout(shorter_timeout(a, b), c) == shorter_timeout(a, shorter_timeout(b, c)),
        shorter_timeout(a, a) == a,
        shorter_timeout(a, None) == a,
        shorter_timeout(None, a) == a,
        shorter_timeout(a, Some(zero)) == Some(zero),
        shorter_timeout(Some(zero), a) == Some(zero),
{
}

/// The shorter timeout is one that neither wait outlasts, and the longest such.
pub proof fn law_min_timeout_is_the_greatest_lower_bound(
    a: Option<nat>,
    b: Option<nat>,
    c: Option<nat>,
)
    ensures
        no_longer(shorter(a, b), a),
        no_longer(shorter(a, b), b),
        no_longer(c, a) && no_longer(c, b) ==> no_longer(c, shorter(a, b)),
{
}

/// It does not matter in which order timeouts are combined, how they are grouped
/// or whether one is counted twice.
pub proof fn law_min_timeout_ignores_order(a: Option<nat>, b: Option<nat>, c: Option<nat>)
    ensures
        shorter(a, b) == shorter(b, a),
        shorter(shorter(a, b), c) == shorter(a, shorter(b, c)),
        shorter(a, a) == a,
{
}

/// An infinite timeout never shortens the wait, and a zero one always ends it.
pub proof fn law_no_timeout_is_infinite(a: Option<nat>)
    ensures
        shorter(a, None) == a,
        shorter(None, a) == a,
        shorter(a, Some(0)) == Some(0nat),
        shorter(a, None) is None <==> a is None,
{
}

} // verus!
