//! Time as the polling loops see it: readings of one monotonic clock, in
//! nanoseconds.
use vstd::prelude::*;

verus! {

/// A span of time, or a clock reading, in nanoseconds.
pub type Nanos = u128;

/// Whether a wait of `timeout` that began at `started` is over at `now`.
pub open spec fn over(started: int, timeout: int, now: int) -> bool {
    now >= started + timeout
}

/// Whether a wait of `timeout` that began at `started` is over at `now`.
pub fn is_over(started: Nanos, timeout: Nanos, now: Nanos) -> (yes: bool)
    ensures
        yes == over(started as int, timeout as int, now as int),
        yes == (now >= started + timeout),
{
    now >= started && now - started >= timeout
}

/// Whether the readings of `times` begin no earlier than `started` and follow
/// each other with at least `pause` in between.
pub open spec fn paced(times: Seq<int>, started: int, pause: int) -> bool {
    &&& times.len() > 0 ==> times[0] >= started
    &&& forall|i: int| 0 < i < times.len() ==> #[trigger] times[i] >= times[i - 1] + pause
}

/// Of paced readings, the one at place `n` comes at least `n` pauses after the
/// start.
pub proof fn lemma_paced(times: Seq<int>, started: int, pause: int, n: int)
    requires
        paced(times, started, pause),
        0 <= n < times.len(),
    ensures
        times[n] >= started + n * pause,
    decreases n,
{
    if n > 0 {
        lemma_paced(times, started, pause, n - 1);
        assert((n - 1) * pause + pause == n * pause) by (nonlinear_arith);
    }
}

/// A wait is over from the moment on at which its time has passed, and not
/// before.
pub proof fn law_over_from_the_deadline_on(
    started: Nanos,
    timeout: Nanos,
    now: Nanos,
    yes: bool,
)
    requires
        call_ensures(is_over, (started, timeout, now), yes),
    ensures
        yes <==> now >= started + timeout,
        over(started as int, timeout as int, now as int) <==> now >= started + timeout,
{
}


} // verus!
