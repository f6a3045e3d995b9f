//! Durations as whole nanoseconds, and the randomized first delay of a
//! background task.

use rand::Rng;
use std::time::Duration;
use vstd::prelude::*;

verus! {

/// Nanoseconds in one second.
pub const NANOS_PER_SEC: u128 = 1_000_000_000;

/// The longest duration there is, in nanoseconds: `u64::MAX` whole seconds
/// and one nanosecond short of a further second.
pub open spec fn max_duration_nanos() -> nat {
    (u64::MAX * NANOS_PER_SEC + (NANOS_PER_SEC - 1)) as nat
}

/// The length of a duration in whole nanoseconds.
pub uninterp spec fn duration_nanos(d: Duration) -> nat;

/// `Duration::as_nanos`: the total number of nanoseconds in the duration. A
/// duration keeps its whole seconds in a `u64` and less than one second of
/// nanoseconds beside them, which bounds the total.
pub assume_specification[ Duration::as_nanos ](d: &Duration) -> (n: u128)
    ensures
        n == duration_nanos(*d),
        n <= max_duration_nanos(),
;

/// `Duration::new`: the duration of `secs` whole seconds and `nanos`
/// additional nanoseconds. With `nanos` below one second nothing carries
/// over into the seconds, so the call cannot overflow.
pub assume_specification[ Duration::new ](secs: u64, nanos: u32) -> (d: Duration)
    requires
        nanos < NANOS_PER_SEC,
    ensures
        duration_nanos(d) == secs * NANOS_PER_SEC + nanos,
;

/// `rand::Rng::gen_range` on `rand::thread_rng()`: a value drawn uniformly
/// from `[0, bound)`. The call panics on an empty range, so `bound` is
/// positive. Which value is drawn is chance: only the range is promised.
#[verifier::external_body]
fn random_below(bound: u128) -> (r: u128)
    requires
        bound > 0,
    ensures
        r < bound,
{
    rand::thread_rng().gen_range(0u128, bound)
}

/// The duration that lasts `nanos` nanoseconds.
pub fn duration_from_nanos(nanos: u128) -> (d: Duration)
    requires
        nanos <= max_duration_nanos(),
    ensures
        duration_nanos(d) == nanos,
{
    let secs: u64 = (nanos / NANOS_PER_SEC) as u64;
    let rest: u32 = (nanos % NANOS_PER_SEC) as u32;
    Duration::new(secs, rest)
}

/// A delay drawn at random from `[0, period)`, or `None` for an empty
/// period, from which nothing can be drawn.
pub fn splay(period: &Duration) -> (r: Option<Duration>)
    ensures
        duration_nanos(*period) == 0 <==> r is None,
        r matches Some(d) ==> duration_nanos(d) < duration_nanos(*period),
{
    let bound: u128 = period.as_nanos();
    if bound == 0 {
        None
    } else {
        let draw: u128 = random_below(bound);
        Some(duration_from_nanos(draw))
    }
}

} // verus!
