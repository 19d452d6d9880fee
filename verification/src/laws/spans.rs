//! Laws of spans of time and of timeouts.

use vstd::prelude::*;

use crate::timeout::{min_timeout, Duration};

verus! {

/// A span gives back the seconds and the nanoseconds it was made of, and is as long as
/// they are together.
pub proof fn law_spans_keep_their_parts(
    secs: u64,
    nanos: u32,
    span: Duration,
    secs_again: u64,
    nanos_again: u32,
)
    requires
        nanos < 1_000_000_000,
        call_ensures(Duration::from_parts, (secs, nanos), span),
        call_ensures(Duration::as_secs, (&span,), secs_again),
        call_ensures(Duration::subsec_nanos, (&span,), nanos_again),
    ensures
        span@ == secs * 1_000_000_000 + nanos,
        secs_again == secs,
        nanos_again == nanos,
{
}

/// A span is as long as its seconds and nanoseconds together, and it has less than a
/// second of nanoseconds.
pub proof fn law_parts_make_up_the_span(span: Duration, secs: u64, nanos: u32)
    requires
        call_ensures(Duration::as_secs, (&span,), secs),
        call_ensures(Duration::subsec_nanos, (&span,), nanos),
    ensures
        span@ == secs * 1_000_000_000 + nanos,
        nanos < 1_000_000_000,
        call_requires(Duration::from_parts, (secs, nanos)),
{
}

/// Of two spans the one with more seconds is longer, and of two with as many seconds the
/// one with more nanoseconds.
pub proof fn law_seconds_count_before_nanoseconds(
    secs: u64,
    nanos: u32,
    span: Duration,
    other_secs: u64,
    other_nanos: u32,
    other: Duration,
    at_least: bool,
)
    requires
        nanos < 1_000_000_000,
        other_nanos < 1_000_000_000,
        call_ensures(Duration::from_parts, (secs, nanos), span),
        call_ensures(Duration::from_parts, (other_secs, other_nanos), other),
        call_ensures(Duration::at_least, (&span, &other), at_least),
    ensures
        at_least <==> secs > other_secs || (secs == other_secs && nanos >= other_nanos),
{
}

/// An infinite timeout gives way to any other, and of two finite ones the one stays that
/// is not the longer.
pub proof fn law_shorter_timeout_stays(
    a: Option<Duration>,
    b: Option<Duration>,
    timeout: Option<Duration>,
)
    requires
        call_ensures(min_timeout, (a, b), timeout),
    ensures
        a is None ==> timeout == b,
        b is None ==> timeout == a,
        a is Some && b is Some ==> {
            &&& timeout is Some
            &&& timeout == a || timeout == b
            &&& timeout->0@ <= a->0@
            &&& timeout->0@ <= b->0@
        },
{
}

/// It makes no difference which of two timeouts comes first, nor how three are grouped.
pub proof fn law_timeouts_combine_in_any_order(
    a: Option<Duration>,
    b: Option<Duration>,
    c: Option<Duration>,
    ab: Option<Duration>,
    ba: Option<Duration>,
    bc: Option<Duration>,
    ab_c: Option<Duration>,
    a_bc: Option<Duration>,
)
    requires
        call_ensures(min_timeout, (a, b), ab),
        call_ensures(min_timeout, (b, a), ba),
        call_ensures(min_timeout, (b, c), bc),
        call_ensures(min_timeout, (ab, c), ab_c),
        call_ensures(min_timeout, (a, bc), a_bc),
    ensures
        ab == ba,
        ab_c == a_bc,
{
}

} // verus!
