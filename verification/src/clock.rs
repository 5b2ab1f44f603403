//! Points in time and spans of time, as std provides them.
//!
//! `Instant` and `Duration` are opaque here: the library carries them, hands
//! them to the std operations below, and speaks of what those return by
//! name.

use std::time::{Duration, Instant};
use vstd::prelude::*;

verus! {

#[verifier::external_type_specification]
#[verifier::external_body]
pub struct ExInstant(Instant);

/// Names the span that `Duration::new(secs, nanos)` returns.
pub uninterp spec fn duration_of(secs: u64, nanos: u32) -> Duration;

/// `Duration::new`: `secs` seconds plus `nanos` nanoseconds. With `nanos`
/// below one second nothing carries, so it cannot overflow.
#[verifier::external_body]
pub(crate) fn duration_new(secs: u64, nanos: u32) -> (d: Duration)
    requires
        nanos < 1_000_000_000,
    ensures
        d == duration_of(secs, nanos),
{
    Duration::new(secs, nanos)
}

/// The span of `ms` milliseconds, as `Duration::from_millis` gives it: the
/// whole seconds in `ms` plus the rest as nanoseconds.
pub(crate) fn duration_from_millis(ms: u64) -> (d: Duration)
    ensures
        d == duration_of(ms / 1000, ((ms % 1000) * 1_000_000) as u32),
{
    let nanos: u32 = ((ms % 1000) * 1_000_000) as u32;
    duration_new(ms / 1000, nanos)
}

/// What `now.duration_since(earlier)` returns: the time elapsed from
/// `earlier` to `now`, zero when `earlier` is the later one.
pub uninterp spec fn time_between(now: Instant, earlier: Instant) -> Duration;

/// What `a < b` answers for two spans of time.
pub uninterp spec fn shorter_than(a: Duration, b: Duration) -> bool;

/// What `t.checked_add(d)` returns: the instant `d` after `t`, or `None`
/// where that instant does not fit the platform clock.
pub uninterp spec fn instant_plus(t: Instant, d: Duration) -> Option<Instant>;

/// What `a < b` answers for two instants.
pub uninterp spec fn earlier_than(a: Instant, b: Instant) -> bool;

/// `Instant::duration_since`: the time elapsed from `earlier` to `now`, so
/// exactly `e` where `now` is `e` after `earlier`.
#[verifier::external_body]
pub(crate) fn elapsed_between(now: Instant, earlier: Instant) -> (d: Duration)
    ensures
        d == time_between(now, earlier),
        forall|e: Duration| #[trigger] instant_plus(earlier, e) == Some(now) ==> d == e,
{
    now.duration_since(earlier)
}

/// `Duration < Duration`: spans compare by their length, so by whole
/// seconds first and then by the nanoseconds below a second.
#[verifier::external_body]
pub(crate) fn duration_shorter(a: Duration, b: Duration) -> (r: bool)
    ensures
        r == shorter_than(a, b),
        forall|s1: u64, n1: u32, s2: u64, n2: u32|
            #![trigger duration_of(s1, n1), duration_of(s2, n2)]
            n1 < 1_000_000_000 && n2 < 1_000_000_000 && a == duration_of(s1, n1) && b
                == duration_of(s2, n2) ==> (r <==> (s1 < s2 || (s1 == s2 && n1 < n2))),
{
    a < b
}

/// `Instant::checked_add`.
#[verifier::external_body]
pub(crate) fn instant_after(t: Instant, d: Duration) -> (r: Option<Instant>)
    ensures
        r == instant_plus(t, d),
{
    t.checked_add(d)
}

/// `Instant < Instant`: no instant is earlier than itself, an instant is
/// earlier than any instant a nonzero span after it, and of two instants
/// reached from one start the one reached by the shorter span is earlier.
#[verifier::external_body]
pub(crate) fn instant_before(a: Instant, b: Instant) -> (r: bool)
    ensures
        r == earlier_than(a, b),
        a == b ==> !r,
        forall|s: u64, n: u32|
            #![trigger instant_plus(a, duration_of(s, n))]
            n < 1_000_000_000 && (s > 0 || n > 0) && instant_plus(a, duration_of(s, n)) == Some(b)
                ==> r,
        forall|c: Instant, s1: u64, n1: u32, s2: u64, n2: u32|
            #![trigger instant_plus(c, duration_of(s1, n1)), instant_plus(c, duration_of(s2, n2))]
            n1 < 1_000_000_000 && n2 < 1_000_000_000 && (s1 < s2 || (s1 == s2 && n1 < n2))
                && instant_plus(c, duration_of(s1, n1)) == Some(a) && instant_plus(
                c,
                duration_of(s2, n2),
            ) == Some(b) ==> r,
{
    a < b
}

} // verus!
